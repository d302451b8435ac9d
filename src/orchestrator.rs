//! The whole build as a state machine.
//!
//! The orchestrator decides; its caller acts. Each step hands the caller an
//! action (test some paths, run a process, compile the bridge) and takes back
//! what came of it. Stages run strictly in order: the dependency is located,
//! fetched if need be, a toolchain is searched for where the platform needs
//! one, AGC is built if its archive is absent, the bridge is compiled, and the
//! link plan is synthesized. The first fatal error ends the run.
use vstd::prelude::*;

use crate::bridge::{bridge_outcome, configure_bridge, is_bridge_config, BridgeConfig};
use crate::command::Invocation;
use crate::dependency::{
    artifact_path, artifact_spec, confirm_source, fetch_command, is_fetch_command, resolve_dependency,
    resolved, source_marker, source_marker_spec, vendored_root_spec, DependencyConfig,
    DependencyFacts, DependencySource,
};
use crate::error::BuildError;
use crate::link::{
    gcc_eh_query, is_present, is_query, libgcc_query, opt_view, paths_to_check, paths_to_check_spec,
    present, synthesize_link_plan, synthesized, LinkFacts, LinkPlan, MissingArchivePolicy,
};
use crate::native_build::{
    is_build_command, is_make_check, make_check_command, native_build_outcome, plan_native_build,
};
use crate::paths::views;
use crate::platform::Platform;
use crate::toolchain::{
    exhausted, formula_spec, is_probe_command, probe_command, SearchStep,
    Toolchain, ToolchainSearch,
};

verus! {

/// What a run is configured with.
pub struct OrchestratorConfig {
    pub platform: Platform,
    pub dependency: DependencyConfig,
    /// Toolchain versions to try, most preferred first.
    pub candidates: Vec<String>,
    pub policy: MissingArchivePolicy,
}

/// Where a run stands: what it waits for.
#[derive(Clone, Copy, Debug, PartialEq, Eq, Structural)]
pub enum Phase {
    /// Which of the dependency's paths exist.
    Surveying,
    /// The fetch of the vendored source.
    Fetching,
    /// A package-manager probe for a toolchain candidate.
    Probing,
    /// Whether GNU make is installed under its macOS name.
    CheckingMake,
    /// The native build.
    Building,
    /// The bridge compilation.
    Compiling,
    /// The toolchain's answer for its `libgcc.a`.
    QueryingLibgcc,
    /// The toolchain's answer for its `libgcc_eh.a`.
    QueryingGccEh,
    /// Which of the link plan's paths exist.
    CheckingArchives,
    /// Nothing: the run is over.
    Done,
}

/// The order of the phases; a run never goes back.
pub open spec fn rank(p: Phase) -> int {
    match p {
        Phase::Surveying => 0,
        Phase::Fetching => 1,
        Phase::Probing => 2,
        Phase::CheckingMake => 3,
        Phase::Building => 4,
        Phase::Compiling => 5,
        Phase::QueryingLibgcc => 6,
        Phase::QueryingGccEh => 7,
        Phase::CheckingArchives => 8,
        Phase::Done => 9,
    }
}

/// What came of an action.
pub enum Event {
    /// Of the paths to test, those that exist.
    Existing(Vec<String>),
    /// A process or compilation ended. For probes and queries `output` is
    /// the standard output without surrounding white space; for builds it is
    /// everything printed.
    Finished { succeeded: bool, output: String },
}

/// Whether `event` answers what a run in `phase` waits for.
pub open spec fn expects(phase: Phase, event: Event) -> bool {
    match phase {
        Phase::Surveying | Phase::CheckingArchives => event is Existing,
        Phase::Done => false,
        _ => event is Finished,
    }
}

/// What the caller does next.
pub enum Action {
    /// Test which of these paths exist; answer with `Event::Existing`.
    CheckPaths(Vec<String>),
    /// Run this process; answer with `Event::Finished`.
    Run(Invocation),
    /// Compile the bridge; answer with `Event::Finished`.
    CompileBridge(BridgeConfig),
    /// The run succeeded: apply this plan to the final link.
    Emit(LinkPlan),
    /// The run failed.
    Abort(BuildError),
}

/// With an override directory, its archive alone; otherwise the vendored
/// marker and archive, then the archive under the system root, where that
/// is set.
pub open spec fn dependency_paths_spec(dep: DependencyConfig) -> Seq<Seq<char>> {
    let vendored = vendored_root_spec(dep.manifest_dir@);
    match dep.override_dir {
        Some(d) => seq![artifact_spec(d@)],
        None => {
            let system = match dep.system_root {
                Some(s) => seq![artifact_spec(s@)],
                None => seq![],
            };
            seq![source_marker_spec(vendored), artifact_spec(vendored)] + system
        },
    }
}

/// The dependency facts that a set of existing paths shows.
pub open spec fn facts_from(dep: DependencyConfig, existing: Seq<String>) -> DependencyFacts {
    let vendored = vendored_root_spec(dep.manifest_dir@);
    DependencyFacts {
        override_artifact: dep.override_dir matches Some(d) && present(existing, artifact_spec(d@)),
        system_artifact: dep.system_root matches Some(s) && present(existing, artifact_spec(s@)),
        vendored_source: present(existing, source_marker_spec(vendored)),
        vendored_artifact: present(existing, artifact_spec(vendored)),
    }
}

/// The paths whose existence decides where the dependency comes from.
pub fn dependency_paths(dep: &DependencyConfig) -> (r: Vec<String>)
    ensures
        views(r@) == dependency_paths_spec(*dep),
{
    match &dep.override_dir {
        Some(d) => {
            let r = vec![artifact_path(d.as_str())];
            assert(views(r@) =~= dependency_paths_spec(*dep));
            return r;
        },
        None => {},
    }
    let vendored = dep.vendored_root();
    let mut r = vec![source_marker(vendored.as_str()), artifact_path(vendored.as_str())];
    match &dep.system_root {
        Some(s) => r.push(artifact_path(s.as_str())),
        None => {},
    }
    assert(views(r@) =~= dependency_paths_spec(*dep));
    r
}

/// Reads the dependency facts off a set of existing paths.
fn read_facts(dep: &DependencyConfig, existing: &Vec<String>) -> (r: DependencyFacts)
    ensures
        r == facts_from(*dep, existing@),
{
    let vendored = dep.vendored_root();
    let override_artifact = match &dep.override_dir {
        Some(d) => is_present(existing, &artifact_path(d.as_str())),
        None => false,
    };
    let system_artifact = match &dep.system_root {
        Some(s) => is_present(existing, &artifact_path(s.as_str())),
        None => false,
    };
    DependencyFacts {
        override_artifact,
        system_artifact,
        vendored_source: is_present(existing, &source_marker(vendored.as_str())),
        vendored_artifact: is_present(existing, &artifact_path(vendored.as_str())),
    }
}

/// The outcome of a probe or a query: its output where it succeeded.
pub open spec fn outcome_spec(succeeded: bool, output: String) -> Option<String> {
    if succeeded {
        Some(output)
    } else {
        None
    }
}

/// The phase that follows once the toolchain is known: the make check on
/// macOS or the build where the archive is absent, else the bridge.
pub open spec fn build_phase(platform: Platform, source: DependencySource) -> Phase {
    if source.needs_build_spec() {
        if platform.macos {
            Phase::CheckingMake
        } else {
            Phase::Building
        }
    } else {
        Phase::Compiling
    }
}

/// The phase that follows once the source is there: the first probe on
/// macOS, or the end where there is no candidate; elsewhere the build stage.
pub open spec fn source_phase(platform: Platform, source: DependencySource, candidates: int) -> Phase {
    if platform.macos {
        if candidates > 0 {
            Phase::Probing
        } else {
            Phase::Done
        }
    } else {
        build_phase(platform, source)
    }
}

/// A run of the build.
pub struct Orchestrator {
    platform: Platform,
    dependency: DependencyConfig,
    policy: MissingArchivePolicy,
    phase: Phase,
    source: Option<DependencySource>,
    search: ToolchainSearch,
    toolchain: Option<Toolchain>,
    gmake: bool,
    libgcc_path: Option<String>,
    gcc_eh_path: Option<String>,
}

impl Orchestrator {
    pub closed spec fn platform(&self) -> Platform {
        self.platform
    }

    pub closed spec fn dependency(&self) -> DependencyConfig {
        self.dependency
    }

    pub closed spec fn policy(&self) -> MissingArchivePolicy {
        self.policy
    }

    /// What the run waits for.
    pub closed spec fn phase(&self) -> Phase {
        self.phase
    }

    /// Where the dependency comes from, once that is known.
    pub closed spec fn source(&self) -> Option<DependencySource> {
        self.source
    }

    /// The search for a toolchain.
    pub closed spec fn search(&self) -> ToolchainSearch {
        self.search
    }

    /// The toolchain, once it is known.
    pub closed spec fn toolchain(&self) -> Option<Toolchain> {
        self.toolchain
    }

    /// Whether the native build runs GNU make under its macOS name.
    pub closed spec fn gmake(&self) -> bool {
        self.gmake
    }

    pub closed spec fn libgcc_path(&self) -> Option<String> {
        self.libgcc_path
    }

    pub closed spec fn gcc_eh_path(&self) -> Option<String> {
        self.gcc_eh_path
    }

    /// The root directory of the dependency.
    pub open spec fn root(&self) -> Seq<char> {
        self.source().unwrap().root_spec()
    }

    /// What each phase needs of the run's state.
    pub open spec fn wf(&self) -> bool {
        &&& (self.phase() != Phase::Surveying ==> self.source() is Some)
        &&& (self.phase() == Phase::Fetching ==> self.source().unwrap().needs_fetch_spec())
        &&& (self.phase() == Phase::Probing ==> {
            &&& self.platform().macos
            &&& self.toolchain() is None
            &&& !self.search().found()
            &&& 0 <= self.search().next() < self.search().candidates().len()
        })
        &&& (rank(self.phase()) >= rank(Phase::CheckingMake) && self.phase() != Phase::Done
            ==> self.toolchain() is Some)
        &&& (self.phase() == Phase::CheckingMake || self.phase() == Phase::Building
            ==> self.source().unwrap().needs_build_spec())
        &&& (self.phase() == Phase::QueryingLibgcc || self.phase() == Phase::QueryingGccEh
            ==> self.toolchain() matches Some(Toolchain::Alternate(_)))
        &&& (self.phase() == Phase::QueryingGccEh ==> self.platform().aarch64)
        &&& (self.toolchain() is Some && !self.platform().macos ==> self.toolchain() == Some(
            Toolchain::SystemDefault,
        ))
        &&& (rank(self.phase()) <= rank(Phase::Fetching) ==> {
            &&& self.toolchain() is None
            &&& !self.search().found()
            &&& self.search().next() == 0
        })
    }

    /// `action` is what the run asks for in its phase.
    pub open spec fn emits(&self, action: Action) -> bool {
        match self.phase() {
            Phase::Surveying => action matches Action::CheckPaths(ps) && views(ps@)
                == dependency_paths_spec(self.dependency()),
            Phase::Fetching => action matches Action::Run(inv) && is_fetch_command(
                inv,
                self.dependency().manifest_dir@,
            ),
            Phase::Probing => action matches Action::Run(inv) && is_probe_command(
                inv,
                formula_spec(self.search().candidates()[self.search().next()]@),
            ),
            Phase::CheckingMake => action matches Action::Run(inv) && is_make_check(inv),
            Phase::Building => action matches Action::Run(inv) && is_build_command(
                inv,
                self.platform(),
                self.source().unwrap(),
                self.toolchain().unwrap(),
                self.gmake(),
            ),
            Phase::Compiling => action matches Action::CompileBridge(cfg) && is_bridge_config(
                cfg,
                self.platform(),
                self.root(),
                self.toolchain().unwrap(),
            ),
            Phase::QueryingLibgcc => action matches Action::Run(inv) && self.toolchain() matches Some(
                Toolchain::Alternate(t),
            ) && is_query(inv, t, "-print-libgcc-file-name"@),
            Phase::QueryingGccEh => action matches Action::Run(inv) && self.toolchain() matches Some(
                Toolchain::Alternate(t),
            ) && is_query(inv, t, "-print-file-name=libgcc_eh.a"@),
            Phase::CheckingArchives => action matches Action::CheckPaths(ps) && views(ps@)
                == paths_to_check_spec(
                self.root(),
                self.toolchain().unwrap(),
                opt_view(self.libgcc_path()),
                opt_view(self.gcc_eh_path()),
            ),
            Phase::Done => action is Emit || action is Abort,
        }
    }

    /// What stays fixed from one step to the next.
    pub open spec fn keeps(&self, old: &Orchestrator) -> bool {
        &&& self.platform() == old.platform()
        &&& self.dependency() == old.dependency()
        &&& self.policy() == old.policy()
        &&& self.search().candidates() == old.search().candidates()
        &&& rank(self.phase()) >= rank(old.phase())
        &&& (self.phase() == old.phase() ==> old.phase() == Phase::Probing)
        &&& (old.phase() != Phase::Surveying ==> self.source() == old.source())
        &&& (old.toolchain() is Some ==> self.toolchain() == old.toolchain())
        &&& (rank(old.phase()) < rank(Phase::Building) && rank(Phase::Compiling) <= rank(
            self.phase(),
        ) && self.phase() != Phase::Done ==> !self.source().unwrap().needs_build_spec())
        &&& (self.toolchain() is Some && !self.platform().macos ==> self.toolchain() == Some(
            Toolchain::SystemDefault,
        ))
    }

    /// A run that has done nothing yet.
    pub fn new(config: OrchestratorConfig) -> (r: Self)
        ensures
            r.wf(),
            r.phase() == Phase::Surveying,
            r.platform() == config.platform,
            r.dependency() == config.dependency,
            r.policy() == config.policy,
            r.search().candidates() == config.candidates@,
            r.toolchain() is None,
    {
        Orchestrator {
            platform: config.platform,
            dependency: config.dependency,
            policy: config.policy,
            phase: Phase::Surveying,
            source: None,
            search: ToolchainSearch::new(config.candidates),
            toolchain: None,
            gmake: false,
            libgcc_path: None,
            gcc_eh_path: None,
        }
    }

    /// The first action: test the paths that decide where the dependency
    /// comes from.
    pub fn start(&self) -> (r: Action)
        requires
            self.phase() == Phase::Surveying,
        ensures
            self.emits(r),
    {
        Action::CheckPaths(dependency_paths(&self.dependency))
    }

    /// What a helper step leaves as it was.
    pub open spec fn stable(&self, old: &Orchestrator) -> bool {
        &&& self.platform() == old.platform()
        &&& self.dependency() == old.dependency()
        &&& self.policy() == old.policy()
        &&& self.search().candidates() == old.search().candidates()
        &&& self.source() == old.source()
        &&& (old.toolchain() is Some ==> self.toolchain() == old.toolchain())
    }

    /// Ends the run with an error.
    fn finish(&mut self, e: BuildError) -> (r: Action)
        requires
            old(self).toolchain() is Some && !old(self).platform().macos ==> old(self).toolchain()
                == Some(Toolchain::SystemDefault),
            old(self).source() is Some,
        ensures
            final(self).wf(),
            final(self).stable(old(self)),
            final(self).toolchain() == old(self).toolchain(),
            final(self).search() == old(self).search(),
            final(self).phase() == Phase::Done,
            r == Action::Abort(e),
    {
        self.phase = Phase::Done;
        Action::Abort(e)
    }

    /// Asks which of the link plan's paths exist.
    fn check_archives(&mut self) -> (r: Action)
        requires
            old(self).toolchain() is Some && !old(self).platform().macos ==> old(self).toolchain()
                == Some(Toolchain::SystemDefault),
            old(self).source() is Some,
            old(self).toolchain() is Some,
        ensures
            final(self).wf(),
            final(self).stable(old(self)),
            final(self).toolchain() == old(self).toolchain(),
            final(self).libgcc_path() == old(self).libgcc_path(),
            final(self).gcc_eh_path() == old(self).gcc_eh_path(),
            final(self).phase() == Phase::CheckingArchives,
            final(self).emits(r),
    {
        self.phase = Phase::CheckingArchives;
        match (&self.source, &self.toolchain) {
            (Some(s), Some(t)) => Action::CheckPaths(
                paths_to_check(s.root().as_str(), t, &self.libgcc_path, &self.gcc_eh_path),
            ),
            _ => {
                proof {
                    assert(false);
                }
                Action::CheckPaths(Vec::new())
            },
        }
    }

    /// After the bridge: query a located toolchain for its runtime
    /// archives, or go straight to testing the link plan's paths.
    fn after_bridge(&mut self) -> (r: Action)
        requires
            old(self).toolchain() is Some && !old(self).platform().macos ==> old(self).toolchain()
                == Some(Toolchain::SystemDefault),
            old(self).source() is Some,
            old(self).toolchain() is Some,
        ensures
            final(self).wf(),
            final(self).stable(old(self)),
            final(self).toolchain() == old(self).toolchain(),
            final(self).libgcc_path() == old(self).libgcc_path(),
            final(self).gcc_eh_path() == old(self).gcc_eh_path(),
            old(self).toolchain() matches Some(Toolchain::Alternate(_)) ==> final(self).phase()
                == Phase::QueryingLibgcc,
            old(self).toolchain() matches Some(Toolchain::SystemDefault) ==> final(self).phase()
                == Phase::CheckingArchives,
            final(self).emits(r),
    {
        match &self.toolchain {
            Some(Toolchain::Alternate(t)) => {
                let q = libgcc_query(t);
                self.phase = Phase::QueryingLibgcc;
                Action::Run(q)
            },
            _ => self.check_archives(),
        }
    }

    /// Compiles the bridge.
    fn begin_compile(&mut self) -> (r: Action)
        requires
            old(self).toolchain() is Some && !old(self).platform().macos ==> old(self).toolchain()
                == Some(Toolchain::SystemDefault),
            old(self).source() is Some,
            old(self).toolchain() is Some,
        ensures
            final(self).wf(),
            final(self).stable(old(self)),
            final(self).toolchain() == old(self).toolchain(),
            final(self).phase() == Phase::Compiling,
            final(self).emits(r),
    {
        self.phase = Phase::Compiling;
        match (&self.source, &self.toolchain) {
            (Some(s), Some(t)) => Action::CompileBridge(
                configure_bridge(self.platform, s.root().as_str(), t),
            ),
            _ => {
                proof {
                    assert(false);
                }
                Action::CheckPaths(Vec::new())
            },
        }
    }

    /// Runs the native build.
    fn begin_build(&mut self, gmake: bool) -> (r: Action)
        requires
            old(self).toolchain() is Some && !old(self).platform().macos ==> old(self).toolchain()
                == Some(Toolchain::SystemDefault),
            old(self).source() matches Some(s) && s.needs_build_spec(),
            old(self).toolchain() is Some,
        ensures
            final(self).wf(),
            final(self).stable(old(self)),
            final(self).toolchain() == old(self).toolchain(),
            final(self).phase() == Phase::Building,
            final(self).gmake() == gmake,
            final(self).emits(r),
    {
        self.gmake = gmake;
        self.phase = Phase::Building;
        let planned = match (&self.source, &self.toolchain) {
            (Some(s), Some(t)) => plan_native_build(self.platform, s, t, gmake),
            _ => {
                proof {
                    assert(false);
                }
                None
            },
        };
        match planned {
            Some(inv) => Action::Run(inv),
            None => {
                proof {
                    assert(false);
                }
                Action::CheckPaths(Vec::new())
            },
        }
    }

    /// With the toolchain known: build AGC where its archive is absent,
    /// first checking for GNU make on macOS; otherwise compile the bridge.
    fn after_toolchain(&mut self) -> (r: Action)
        requires
            old(self).toolchain() is Some && !old(self).platform().macos ==> old(self).toolchain()
                == Some(Toolchain::SystemDefault),
            old(self).source() is Some,
            old(self).toolchain() is Some,
        ensures
            final(self).wf(),
            final(self).stable(old(self)),
            final(self).toolchain() == old(self).toolchain(),
            final(self).phase() == build_phase(old(self).platform(), old(self).source().unwrap()),
            final(self).emits(r),
    {
        let needs_build = match &self.source {
            Some(s) => s.needs_build(),
            None => false,
        };
        if needs_build {
            if self.platform.macos {
                self.phase = Phase::CheckingMake;
                Action::Run(make_check_command())
            } else {
                self.begin_build(false)
            }
        } else {
            self.begin_compile()
        }
    }

    /// With the source known: search for a toolchain where the platform
    /// needs one, else go on with the default one.
    fn after_source(&mut self) -> (r: Action)
        requires
            old(self).source() is Some,
            old(self).toolchain() is None,
            !old(self).search().found(),
            old(self).search().next() == 0,
        ensures
            final(self).wf(),
            final(self).stable(old(self)),
            old(self).platform().macos ==> final(self).search() == old(self).search()
                && final(self).toolchain() is None,
            old(self).platform().macos && old(self).search().candidates().len() > 0
                ==> final(self).phase() == Phase::Probing,
            old(self).platform().macos && old(self).search().candidates().len() == 0 ==> (
            final(self).phase() == Phase::Done && (r matches Action::Abort(e) && exhausted(
                e,
                old(self).search().candidates(),
            ))),
            !old(self).platform().macos ==> {
                &&& final(self).toolchain() == Some(Toolchain::SystemDefault)
                &&& final(self).phase() == build_phase(
                    old(self).platform(),
                    old(self).source().unwrap(),
                )
            },
            final(self).emits(r),
    {
        if self.platform.toolchain_required() {
            match self.search.first_step() {
                SearchStep::Probe(package) => {
                    self.phase = Phase::Probing;
                    Action::Run(probe_command(package.as_str()))
                },
                SearchStep::Exhausted(e) => self.finish(e),
                SearchStep::Found(_) => {
                    proof {
                        assert(false);
                    }
                    self.finish(BuildError::SourceMissing { path: String::new() })
                },
            }
        } else {
            self.toolchain = Some(Toolchain::SystemDefault);
            self.after_toolchain()
        }
    }

    /// Takes what came of the last action and returns the next one.
    ///
    /// The phases only move forward, with one probe after another while a
    /// toolchain is searched for. The native build runs only where the
    /// dependency's archive is absent, and the first failure ends the run
    /// with its error.
    pub fn step(&mut self, event: Event) -> (r: Action)
        requires
            old(self).wf(),
            expects(old(self).phase(), event),
        ensures
            final(self).wf(),
            final(self).emits(r),
            final(self).keeps(old(self)),
            old(self).phase() == Phase::Surveying ==> (event matches Event::Existing(list)
                && resolved(
                final(self).source().unwrap(),
                old(self).dependency(),
                facts_from(old(self).dependency(), list@),
            ) && (final(self).source().unwrap().needs_fetch_spec() ==> final(self).phase()
                == Phase::Fetching) && (!final(self).source().unwrap().needs_fetch_spec()
                ==> final(self).phase() == source_phase(
                old(self).platform(),
                final(self).source().unwrap(),
                old(self).search().candidates().len() as int,
            )) && (final(self).phase() == Phase::Probing ==> final(self).search().next() == 0)
                && (final(self).phase() == Phase::Done ==> (r matches Action::Abort(e) && exhausted(
                e,
                old(self).search().candidates(),
            )))),
            old(self).phase() == Phase::Fetching ==> (event matches Event::Finished {
                succeeded,
                ..
            } && (!succeeded ==> final(self).phase() == Phase::Done && (r matches Action::Abort(
                BuildError::SourceMissing { path },
            ) && path@ == old(self).root())) && (succeeded ==> final(self).phase() == source_phase(
                old(self).platform(),
                old(self).source().unwrap(),
                old(self).search().candidates().len() as int,
            )) && (final(self).phase() == Phase::Probing ==> final(self).search().next() == 0)
                && (succeeded && final(self).phase() == Phase::Done ==> (r matches Action::Abort(e)
                && exhausted(e, old(self).search().candidates())))),
            old(self).phase() == Phase::Probing ==> (event matches Event::Finished {
                succeeded,
                output,
            } && ({
                let k = old(self).search().next();
                let candidates = old(self).search().candidates();
                let outcome = outcome_spec(succeeded, output);
                &&& crate::toolchain::accepts(outcome) ==> (final(self).toolchain() matches Some(
                    Toolchain::Alternate(t),
                ) && t.version@ == candidates[k]@ && t.prefix@ == output@ && final(self).phase()
                    == build_phase(old(self).platform(), old(self).source().unwrap()))
                &&& !crate::toolchain::accepts(outcome) ==> {
                    &&& final(self).toolchain() is None
                    &&& final(self).search().next() == k + 1
                    &&& k + 1 < candidates.len() ==> final(self).phase() == Phase::Probing
                    &&& k + 1 == candidates.len() ==> final(self).phase() == Phase::Done && (r matches Action::Abort(e) && exhausted(e, candidates))
                }
            })),
            old(self).phase() == Phase::CheckingMake ==> (event matches Event::Finished {
                succeeded,
                ..
            } && final(self).phase() == Phase::Building && final(self).gmake() == succeeded),
            old(self).phase() == Phase::Building ==> (event matches Event::Finished {
                succeeded,
                output,
            } && (!succeeded ==> final(self).phase() == Phase::Done && (r matches Action::Abort(
                BuildError::NativeBuild { output: o },
            ) && o == output)) && (succeeded ==> final(self).phase() == Phase::Compiling)),
            old(self).phase() == Phase::Compiling ==> (event matches Event::Finished {
                succeeded,
                output,
            } && (!succeeded ==> final(self).phase() == Phase::Done && (r matches Action::Abort(
                BuildError::BridgeCompile { diagnostic },
            ) && diagnostic == output)) && (succeeded ==> final(self).phase() == if old(
                self,
            ).toolchain() matches Some(Toolchain::Alternate(_)) {
                Phase::QueryingLibgcc
            } else {
                Phase::CheckingArchives
            })),
            old(self).phase() == Phase::QueryingLibgcc ==> (event matches Event::Finished {
                succeeded,
                output,
            } && final(self).libgcc_path() == outcome_spec(succeeded, output) && final(self).phase()
                == if old(self).platform().aarch64 {
                Phase::QueryingGccEh
            } else {
                Phase::CheckingArchives
            }),
            old(self).phase() == Phase::QueryingGccEh ==> (event matches Event::Finished {
                succeeded,
                output,
            } && final(self).gcc_eh_path() == outcome_spec(succeeded, output)
                && final(self).libgcc_path() == old(self).libgcc_path() && final(self).phase()
                == Phase::CheckingArchives),
            old(self).phase() == Phase::CheckingArchives ==> (event matches Event::Existing(list)
                && final(self).phase() == Phase::Done && ({
                let facts = LinkFacts {
                    existing: list,
                    libgcc_path: old(self).libgcc_path(),
                    gcc_eh_path: old(self).gcc_eh_path(),
                };
                let root = old(self).root();
                let toolchain = old(self).toolchain().unwrap();
                let platform = old(self).platform();
                let policy = old(self).policy();
                ||| (r matches Action::Emit(plan) && synthesized(
                    Ok(plan),
                    platform,
                    root,
                    toolchain,
                    facts,
                    policy,
                ))
                ||| (r matches Action::Abort(e) && synthesized(
                    Err(e),
                    platform,
                    root,
                    toolchain,
                    facts,
                    policy,
                ))
            })),
    {
        match self.phase {
            Phase::Surveying => {
                match event {
                    Event::Existing(list) => {
                        let facts = read_facts(&self.dependency, &list);
                        let source = resolve_dependency(&self.dependency, &facts);
                        let fetch = source.needs_fetch();
                        self.source = Some(source);
                        if fetch {
                            self.phase = Phase::Fetching;
                            Action::Run(fetch_command(self.dependency.manifest_dir.as_str()))
                        } else {
                            self.after_source()
                        }
                    },
                    Event::Finished { .. } => {
                        proof {
                            assert(false);
                        }
                        Action::CheckPaths(Vec::new())
                    },
                }
            },
            Phase::Fetching => {
                let succeeded = match &event {
                    Event::Finished { succeeded, .. } => *succeeded,
                    Event::Existing(_) => false,
                };
                let confirmed = match &self.source {
                    Some(s) => confirm_source(s, succeeded),
                    None => {
                        proof {
                            assert(false);
                        }
                        Ok(())
                    },
                };
                match confirmed {
                    Ok(()) => self.after_source(),
                    Err(e) => self.finish(e),
                }
            },
            Phase::Probing => {
                let outcome = match event {
                    Event::Finished { succeeded, output } => if succeeded {
                        Some(output)
                    } else {
                        None
                    },
                    Event::Existing(_) => {
                        proof {
                            assert(false);
                        }
                        None
                    },
                };
                match self.search.observe(outcome) {
                    SearchStep::Probe(package) => Action::Run(probe_command(package.as_str())),
                    SearchStep::Found(t) => {
                        self.toolchain = Some(Toolchain::Alternate(t));
                        self.after_toolchain()
                    },
                    SearchStep::Exhausted(e) => self.finish(e),
                }
            },
            Phase::CheckingMake => {
                let succeeded = match &event {
                    Event::Finished { succeeded, .. } => *succeeded,
                    Event::Existing(_) => false,
                };
                self.begin_build(succeeded)
            },
            Phase::Building => {
                match event {
                    Event::Finished { succeeded, output } => {
                        match native_build_outcome(succeeded, output) {
                            Ok(()) => self.begin_compile(),
                            Err(e) => self.finish(e),
                        }
                    },
                    Event::Existing(_) => {
                        proof {
                            assert(false);
                        }
                        Action::CheckPaths(Vec::new())
                    },
                }
            },
            Phase::Compiling => {
                match event {
                    Event::Finished { succeeded, output } => {
                        match bridge_outcome(succeeded, output) {
                            Ok(()) => self.after_bridge(),
                            Err(e) => self.finish(e),
                        }
                    },
                    Event::Existing(_) => {
                        proof {
                            assert(false);
                        }
                        Action::CheckPaths(Vec::new())
                    },
                }
            },
            Phase::QueryingLibgcc => {
                match event {
                    Event::Finished { succeeded, output } => {
                        self.libgcc_path = if succeeded {
                            Some(output)
                        } else {
                            None
                        };
                    },
                    Event::Existing(_) => {},
                }
                if self.platform.aarch64 {
                    self.phase = Phase::QueryingGccEh;
                    match &self.toolchain {
                        Some(Toolchain::Alternate(t)) => Action::Run(gcc_eh_query(t)),
                        _ => {
                            proof {
                                assert(false);
                            }
                            Action::CheckPaths(Vec::new())
                        },
                    }
                } else {
                    self.check_archives()
                }
            },
            Phase::QueryingGccEh => {
                match event {
                    Event::Finished { succeeded, output } => {
                        self.gcc_eh_path = if succeeded {
                            Some(output)
                        } else {
                            None
                        };
                    },
                    Event::Existing(_) => {},
                }
                self.check_archives()
            },
            Phase::CheckingArchives => {
                match event {
                    Event::Existing(list) => {
                        let facts = LinkFacts {
                            existing: list,
                            libgcc_path: self.libgcc_path.take(),
                            gcc_eh_path: self.gcc_eh_path.take(),
                        };
                        let planned = match (&self.source, &self.toolchain) {
                            (Some(s), Some(t)) => synthesize_link_plan(
                                self.platform,
                                s.root().as_str(),
                                t,
                                &facts,
                                self.policy,
                            ),
                            _ => {
                                proof {
                                    assert(false);
                                }
                                Err(BuildError::SourceMissing { path: String::new() })
                            },
                        };
                        self.phase = Phase::Done;
                        match planned {
                            Ok(plan) => Action::Emit(plan),
                            Err(e) => Action::Abort(e),
                        }
                    },
                    Event::Finished { .. } => {
                        proof {
                            assert(false);
                        }
                        Action::CheckPaths(Vec::new())
                    },
                }
            },
            Phase::Done => {
                proof {
                    assert(false);
                }
                Action::CheckPaths(Vec::new())
            },
        }
    }
}

/// Where the dependency's archive already exists, no later state of the run
/// checks for make or runs the native build: the build stage costs no
/// process at all.
pub proof fn lemma_existing_archive_is_not_rebuilt(before: Orchestrator, after: Orchestrator)
    requires
        before.phase() != Phase::Surveying,
        before.wf(),
        !before.source().unwrap().needs_build_spec(),
        after.wf(),
        after.keeps(&before),
    ensures
        after.phase() != Phase::CheckingMake,
        after.phase() != Phase::Building,
{
}

/// Over the states of a run, step after step, the native build is entered
/// at most once: once a state has left it, no later state is in it again.
pub proof fn lemma_native_build_runs_at_most_once(states: Seq<Orchestrator>, i: int, j: int)
    requires
        forall|k: int| 0 <= k < states.len() - 1 ==> #[trigger] states[k + 1].keeps(&states[k]),
        0 <= i < j < states.len(),
        states[i].phase() == Phase::Building,
    ensures
        states[j].phase() != Phase::Building,
    decreases j - i,
{
    assert(states[i + 1].keeps(&states[i]));
    if j > i + 1 {
        lemma_ranks_rise(states, i + 1, j);
    }
}

proof fn lemma_ranks_rise(states: Seq<Orchestrator>, i: int, j: int)
    requires
        forall|k: int| 0 <= k < states.len() - 1 ==> #[trigger] states[k + 1].keeps(&states[k]),
        0 <= i <= j < states.len(),
    ensures
        rank(states[j].phase()) >= rank(states[i].phase()),
    decreases j - i,
{
    if i < j {
        assert(states[i + 1].keeps(&states[i]));
        lemma_ranks_rise(states, i + 1, j);
    }
}

} // verus!
