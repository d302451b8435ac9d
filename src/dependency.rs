//! Where the native AGC library comes from.
//!
//! An explicit override directory wins; then a system installation whose
//! archive is present; then the copy vendored inside the build tree, which
//! may have to be fetched and built first.
use vstd::prelude::*;

use crate::command::{Capture, Invocation};
use crate::error::BuildError;
use crate::paths::{join, joined};

verus! {

/// `{root}/bin/libagc.a`, the archive that AGC's own build produces.
pub open spec fn artifact_spec(root: Seq<char>) -> Seq<char> {
    joined(joined(root, "bin"@), "libagc.a"@)
}

/// The path of AGC's static archive under a source root.
pub fn artifact_path(root: &str) -> (r: String)
    ensures
        r@ == artifact_spec(root@),
{
    let bin = join(root, "bin");
    join(bin.as_str(), "libagc.a")
}

/// `{manifest_dir}/agc`, where the vendored source lives.
pub open spec fn vendored_root_spec(manifest_dir: Seq<char>) -> Seq<char> {
    joined(manifest_dir, "agc"@)
}

/// `{root}/makefile`: its presence shows that the source tree is there.
pub open spec fn source_marker_spec(root: Seq<char>) -> Seq<char> {
    joined(root, "makefile"@)
}

/// The file whose presence shows that a source tree is materialized.
pub fn source_marker(root: &str) -> (r: String)
    ensures
        r@ == source_marker_spec(root@),
{
    join(root, "makefile")
}

/// What the surrounding build says about the dependency's location.
pub struct DependencyConfig {
    /// The directory of the package being built.
    pub manifest_dir: String,
    /// An explicit AGC directory, taken before anything else.
    pub override_dir: Option<String>,
    /// Where a system-wide installation of AGC would be.
    pub system_root: Option<String>,
}

impl DependencyConfig {
    /// The root of the vendored copy.
    pub fn vendored_root(&self) -> (r: String)
        ensures
            r@ == vendored_root_spec(self.manifest_dir@),
    {
        join(self.manifest_dir.as_str(), "agc")
    }
}

/// What the filesystem shows about the places the dependency may be.
pub struct DependencyFacts {
    /// The archive exists under the override directory.
    pub override_artifact: bool,
    /// The archive exists under the system root.
    pub system_artifact: bool,
    /// The vendored source's marker file exists.
    pub vendored_source: bool,
    /// The archive exists under the vendored root.
    pub vendored_artifact: bool,
}

/// Where the dependency was found, and what remains to be done there.
pub enum DependencySource {
    /// The override directory; built there if its archive is absent.
    EnvironmentOverride { root: String, needs_build: bool },
    /// A system installation, used as it is.
    SystemInstall { root: String },
    /// The vendored copy; built if its archive is absent, and fetched
    /// first if its source is absent too.
    VendoredSource { root: String, needs_build: bool, needs_fetch: bool },
}

impl DependencySource {
    /// The root directory of the dependency.
    pub open spec fn root_spec(&self) -> Seq<char> {
        match self {
            DependencySource::EnvironmentOverride { root, .. } => root@,
            DependencySource::SystemInstall { root } => root@,
            DependencySource::VendoredSource { root, .. } => root@,
        }
    }

    /// Whether the native build has to run.
    pub open spec fn needs_build_spec(&self) -> bool {
        match self {
            DependencySource::EnvironmentOverride { needs_build, .. } => *needs_build,
            DependencySource::SystemInstall { .. } => false,
            DependencySource::VendoredSource { needs_build, .. } => *needs_build,
        }
    }

    /// Whether the source tree has to be fetched first.
    pub open spec fn needs_fetch_spec(&self) -> bool {
        match self {
            DependencySource::VendoredSource { needs_fetch, .. } => *needs_fetch,
            _ => false,
        }
    }

    /// The root directory of the dependency.
    pub fn root(&self) -> (r: &String)
        ensures
            r@ == self.root_spec(),
    {
        match self {
            DependencySource::EnvironmentOverride { root, .. } => root,
            DependencySource::SystemInstall { root } => root,
            DependencySource::VendoredSource { root, .. } => root,
        }
    }

    /// Whether the native build has to run.
    pub fn needs_build(&self) -> (r: bool)
        ensures
            r == self.needs_build_spec(),
    {
        match self {
            DependencySource::EnvironmentOverride { needs_build, .. } => *needs_build,
            DependencySource::SystemInstall { .. } => false,
            DependencySource::VendoredSource { needs_build, .. } => *needs_build,
        }
    }

    /// Whether the source tree has to be fetched first.
    pub fn needs_fetch(&self) -> (r: bool)
        ensures
            r == self.needs_fetch_spec(),
    {
        match self {
            DependencySource::VendoredSource { needs_fetch, .. } => *needs_fetch,
            _ => false,
        }
    }
}

/// `r` is where the dependency comes from: the override directory if one is
/// set, else the system root if its archive exists, else the vendored copy,
/// which is fetched only where neither its archive nor its source is there.
pub open spec fn resolved(r: DependencySource, config: DependencyConfig, facts: DependencyFacts) -> bool {
    match config.override_dir {
        Some(d) => r matches DependencySource::EnvironmentOverride { root, needs_build } && root@
            == d@ && needs_build == !facts.override_artifact,
        None => match config.system_root {
            Some(s) if facts.system_artifact => r matches DependencySource::SystemInstall { root }
                && root@ == s@,
            _ => r matches DependencySource::VendoredSource { root, needs_build, needs_fetch }
                && root@ == vendored_root_spec(config.manifest_dir@) && needs_build
                == !facts.vendored_artifact && needs_fetch == (!facts.vendored_artifact
                && !facts.vendored_source),
        },
    }
}

/// Decides where the dependency comes from.
pub fn resolve_dependency(config: &DependencyConfig, facts: &DependencyFacts) -> (r:
    DependencySource)
    ensures
        resolved(r, *config, *facts),
{
    match &config.override_dir {
        Some(d) => {
            return DependencySource::EnvironmentOverride {
                root: d.clone(),
                needs_build: !facts.override_artifact,
            };
        },
        None => {},
    }
    if facts.system_artifact {
        match &config.system_root {
            Some(s) => {
                return DependencySource::SystemInstall { root: s.clone() };
            },
            None => {},
        }
    }
    DependencySource::VendoredSource {
        root: config.vendored_root(),
        needs_build: !facts.vendored_artifact,
        needs_fetch: !facts.vendored_artifact && !facts.vendored_source,
    }
}

/// A recursive submodule update run in the package directory, with only
/// `PATH` and `HOME` from the environment.
pub open spec fn is_fetch_command(inv: Invocation, manifest_dir: Seq<char>) -> bool {
    &&& inv.program@ == "git"@
    &&& inv.args@.map_values(|a: String| a@) == seq![
        "submodule"@,
        "update"@,
        "--init"@,
        "--recursive"@,
    ]
    &&& inv.cwd@ == manifest_dir
    &&& inv.env@.len() == 0
    &&& inv.inherit@.map_values(|a: String| a@) == seq!["PATH"@, "HOME"@]
    &&& inv.capture == Capture::TrimmedStdout
}

/// The command that materializes the vendored source: a recursive
/// submodule update, run in the package directory.
pub fn fetch_command(manifest_dir: &str) -> (r: Invocation)
    ensures
        is_fetch_command(r, manifest_dir@),
{
    let args = vec![
        String::from_str("submodule"),
        String::from_str("update"),
        String::from_str("--init"),
        String::from_str("--recursive"),
    ];
    let inherit = vec![String::from_str("PATH"), String::from_str("HOME")];
    assert(args@.map_values(|a: String| a@) =~= seq![
        "submodule"@,
        "update"@,
        "--init"@,
        "--recursive"@,
    ]);
    assert(inherit@.map_values(|a: String| a@) =~= seq!["PATH"@, "HOME"@]);
    Invocation {
        program: String::from_str("git"),
        args,
        cwd: manifest_dir.to_owned(),
        env: Vec::new(),
        inherit,
        capture: Capture::TrimmedStdout,
    }
}

/// Judges a fetch of the source tree from its exit status: a fetch that
/// failed, the fetch tool being absent included, stops the run with the
/// tree's path.
pub fn confirm_source(source: &DependencySource, fetched: bool) -> (r: Result<(), BuildError>)
    ensures
        fetched <==> r is Ok,
        !fetched ==> (r matches Err(BuildError::SourceMissing { path }) && path@
            == source.root_spec()),
{
    if fetched {
        Ok(())
    } else {
        Err(BuildError::SourceMissing { path: source.root().clone() })
    }
}

} // verus!
