//! The native build of AGC, run with the located toolchain.
use vstd::prelude::*;

use crate::command::{env_var, env_views, Capture, EnvVar, Invocation};
use crate::dependency::DependencySource;
use crate::error::BuildError;
use crate::platform::Platform;
use crate::toolchain::{tool_path, Toolchain};

verus! {

/// The make program: GNU make under its macOS name where it is installed.
pub open spec fn make_program_spec(platform: Platform, gmake_available: bool) -> Seq<char> {
    if platform.macos && gmake_available {
        "gmake"@
    } else {
        "make"@
    }
}

/// GNU make asked for its version, which shows whether it is installed.
pub open spec fn is_make_check(inv: Invocation) -> bool {
    &&& inv.program@ == "gmake"@
    &&& inv.args@.map_values(|a: String| a@) == seq!["--version"@]
    &&& inv.cwd@ == "."@
    &&& inv.env@.len() == 0
    &&& inv.inherit@.map_values(|a: String| a@) == seq!["PATH"@]
    &&& inv.capture == Capture::TrimmedStdout
}

/// The check for GNU make under its macOS name.
pub fn make_check_command() -> (r: Invocation)
    ensures
        is_make_check(r),
{
    let args = vec![String::from_str("--version")];
    let inherit = vec![String::from_str("PATH")];
    assert(args@.map_values(|a: String| a@) =~= seq!["--version"@]);
    assert(inherit@.map_values(|a: String| a@) =~= seq!["PATH"@]);
    Invocation {
        program: String::from_str("gmake"),
        args,
        cwd: String::from_str("."),
        env: Vec::new(),
        inherit,
        capture: Capture::TrimmedStdout,
    }
}

/// The variables the native build receives: the compilers to use, by
/// absolute path, the platform hint on 64-bit ARM, and static runtime
/// linking. A build with the default toolchain receives none.
pub open spec fn build_env_spec(platform: Platform, toolchain: Toolchain) -> Seq<
    (Seq<char>, Seq<char>),
> {
    match toolchain {
        Toolchain::SystemDefault => seq![],
        Toolchain::Alternate(t) => {
            let compilers = seq![
                ("CC"@, tool_path(t.prefix@, "gcc"@, t.version@)),
                ("CXX"@, tool_path(t.prefix@, "g++"@, t.version@)),
            ];
            let hint = if platform.aarch64 {
                seq![("PLATFORM"@, "arm8"@)]
            } else {
                seq![]
            };
            compilers + hint + seq![("LDFLAGS"@, "-static-libgcc -static-libstdc++"@)]
        },
    }
}

/// The variables set for the native build.
pub fn build_env(platform: Platform, toolchain: &Toolchain) -> (r: Vec<EnvVar>)
    ensures
        env_views(r@) == build_env_spec(platform, *toolchain),
{
    let mut r: Vec<EnvVar> = Vec::new();
    match toolchain {
        Toolchain::SystemDefault => {},
        Toolchain::Alternate(t) => {
            r.push(EnvVar { name: String::from_str("CC"), value: t.c_compiler() });
            r.push(EnvVar { name: String::from_str("CXX"), value: t.cxx_compiler() });
            if platform.aarch64 {
                r.push(env_var("PLATFORM", "arm8"));
            }
            r.push(env_var("LDFLAGS", "-static-libgcc -static-libstdc++"));
        },
    }
    assert(env_views(r@) =~= build_env_spec(platform, *toolchain));
    r
}

/// The build command for a dependency that needs building: the make
/// program, run in parallel in the dependency's root, with the variables
/// of `build_env_spec` and nothing from the caller's environment.
pub open spec fn is_build_command(
    inv: Invocation,
    platform: Platform,
    source: DependencySource,
    toolchain: Toolchain,
    gmake_available: bool,
) -> bool {
    &&& inv.program@ == make_program_spec(platform, gmake_available)
    &&& inv.args@.map_values(|a: String| a@) == seq!["-j"@]
    &&& inv.cwd@ == source.root_spec()
    &&& env_views(inv.env@) == build_env_spec(platform, toolchain)
    &&& inv.inherit@.len() == 0
    &&& inv.capture == Capture::Everything
}

/// Plans the native build. Nothing is run where the archive is already
/// there; otherwise the one command to run is returned.
pub fn plan_native_build(
    platform: Platform,
    source: &DependencySource,
    toolchain: &Toolchain,
    gmake_available: bool,
) -> (r: Option<Invocation>)
    ensures
        !source.needs_build_spec() ==> r is None,
        source.needs_build_spec() ==> (r matches Some(inv) && is_build_command(
            inv,
            platform,
            *source,
            *toolchain,
            gmake_available,
        )),
{
    if !source.needs_build() {
        return None;
    }
    let program = if platform.macos && gmake_available {
        String::from_str("gmake")
    } else {
        String::from_str("make")
    };
    let args = vec![String::from_str("-j")];
    assert(args@.map_values(|a: String| a@) =~= seq!["-j"@]);
    Some(
        Invocation {
            program,
            args,
            cwd: source.root().clone(),
            env: build_env(platform, toolchain),
            inherit: Vec::new(),
            capture: Capture::Everything,
        },
    )
}

/// Judges a finished native build from its exit status; a failure carries
/// what the build printed, unchanged.
pub fn native_build_outcome(succeeded: bool, output: String) -> (r: Result<(), BuildError>)
    ensures
        succeeded <==> r is Ok,
        !succeeded ==> (r matches Err(BuildError::NativeBuild { output: o }) && o == output),
{
    if succeeded {
        Ok(())
    } else {
        Err(BuildError::NativeBuild { output })
    }
}

} // verus!
