//! Compilation of the C++ bridge, with the same toolchain as AGC itself.
use vstd::prelude::*;

use crate::error::BuildError;
use crate::paths::{concat, join, joined, views};
use crate::platform::Platform;
use crate::toolchain::{runtime_dir_spec, tool_path, Toolchain};

verus! {

/// How the bridge translation unit is compiled.
pub struct BridgeConfig {
    /// The Rust file that declares the bridge, relative to the package.
    pub bridge_source: String,
    /// The C++ files compiled with it.
    pub sources: Vec<String>,
    /// Header search directories.
    pub includes: Vec<String>,
    /// Flags passed where the compiler supports them.
    pub flags_if_supported: Vec<String>,
    /// Flags always passed.
    pub flags: Vec<String>,
    /// The C++ compiler, where it is not the platform's default.
    pub cxx_compiler: Option<String>,
    /// The name of the library that the compilation produces.
    pub output: String,
}

/// The root, its sources, the common and core modules, and the bundled
/// third-party headers.
pub open spec fn includes_spec(root: Seq<char>) -> Seq<Seq<char>> {
    let src = joined(root, "src"@);
    seq![root, src, joined(src, "common"@), joined(src, "core"@), joined(root, "3rd_party"@)]
}

/// The language standard and position-independent code, and with the
/// default toolchain static runtime linking where supported.
pub open spec fn optional_flags_spec(toolchain: Toolchain) -> Seq<Seq<char>> {
    let base = seq!["-std=c++20"@, "-fPIC"@];
    match toolchain {
        Toolchain::SystemDefault => base + seq!["-static-libgcc"@, "-static-libstdc++"@],
        Toolchain::Alternate(_) => base,
    }
}

/// With a located toolchain: the ARM architecture that AGC is built for,
/// static runtime linking, and the toolchain's runtime directory.
pub open spec fn flags_spec(platform: Platform, toolchain: Toolchain) -> Seq<Seq<char>> {
    match toolchain {
        Toolchain::SystemDefault => seq![],
        Toolchain::Alternate(t) => {
            let arch = if platform.aarch64 {
                seq!["-march=armv8-a"@]
            } else {
                seq![]
            };
            arch + seq![
                "-static-libgcc"@,
                "-static-libstdc++"@,
                "-L"@ + runtime_dir_spec(t.prefix@, t.version@),
            ]
        },
    }
}

/// The compiler of `program` in the located toolchain, if any.
pub open spec fn compiler_spec(toolchain: Toolchain, program: Seq<char>, r: Option<String>) -> bool {
    match toolchain {
        Toolchain::SystemDefault => r is None,
        Toolchain::Alternate(t) => r matches Some(c) && c@ == tool_path(
            t.prefix@,
            program,
            t.version@,
        ),
    }
}

/// The header search directories under a dependency root.
pub fn bridge_includes(root: &str) -> (r: Vec<String>)
    ensures
        views(r@) == includes_spec(root@),
{
    let src = join(root, "src");
    let common = join(src.as_str(), "common");
    let core = join(src.as_str(), "core");
    let third = join(root, "3rd_party");
    let r = vec![root.to_owned(), src, common, core, third];
    assert(views(r@) =~= includes_spec(root@));
    r
}

/// The bridge configuration for a dependency rooted at `root`.
pub open spec fn is_bridge_config(
    r: BridgeConfig,
    platform: Platform,
    root: Seq<char>,
    toolchain: Toolchain,
) -> bool {
    &&& r.bridge_source@ == "app/agc_file.rs"@
    &&& views(r.sources@) == seq!["src/agc_bridge.cpp"@]
    &&& views(r.includes@) == includes_spec(root)
    &&& views(r.flags_if_supported@) == optional_flags_spec(toolchain)
    &&& views(r.flags@) == flags_spec(platform, toolchain)
    &&& compiler_spec(toolchain, "g++"@, r.cxx_compiler)
    &&& r.output@ == "agc-bridge"@
}

/// Configures the bridge for a dependency rooted at `root`. A located
/// toolchain compiles it, never the platform's default compiler.
pub fn configure_bridge(platform: Platform, root: &str, toolchain: &Toolchain) -> (r: BridgeConfig)
    ensures
        is_bridge_config(r, platform, root@, *toolchain),
{
    let mut optional = vec![String::from_str("-std=c++20"), String::from_str("-fPIC")];
    let mut flags: Vec<String> = Vec::new();
    let mut cxx_compiler: Option<String> = None;
    match toolchain {
        Toolchain::SystemDefault => {
            optional.push(String::from_str("-static-libgcc"));
            optional.push(String::from_str("-static-libstdc++"));
        },
        Toolchain::Alternate(t) => {
            if platform.aarch64 {
                flags.push(String::from_str("-march=armv8-a"));
            }
            flags.push(String::from_str("-static-libgcc"));
            flags.push(String::from_str("-static-libstdc++"));
            let dir = t.runtime_dir();
            flags.push(concat("-L", dir.as_str()));
            cxx_compiler = Some(t.cxx_compiler());
        },
    }
    let sources = vec![String::from_str("src/agc_bridge.cpp")];
    assert(views(sources@) =~= seq!["src/agc_bridge.cpp"@]);
    assert(views(optional@) =~= optional_flags_spec(*toolchain));
    assert(views(flags@) =~= flags_spec(platform, *toolchain));
    BridgeConfig {
        bridge_source: String::from_str("app/agc_file.rs"),
        sources,
        includes: bridge_includes(root),
        flags_if_supported: optional,
        flags,
        cxx_compiler,
        output: String::from_str("agc-bridge"),
    }
}

/// Judges a finished bridge compilation; a failure carries the compiler's
/// diagnostic.
pub fn bridge_outcome(succeeded: bool, diagnostic: String) -> (r: Result<(), BuildError>)
    ensures
        succeeded <==> r is Ok,
        !succeeded ==> (r matches Err(BuildError::BridgeCompile { diagnostic: d }) && d
            == diagnostic),
{
    if succeeded {
        Ok(())
    } else {
        Err(BuildError::BridgeCompile { diagnostic })
    }
}

} // verus!
