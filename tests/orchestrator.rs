use agc_rs::dependency::DependencyConfig;
use agc_rs::error::BuildError;
use agc_rs::link::{render_plan, LinkPlan, MissingArchivePolicy};
use agc_rs::orchestrator::{dependency_paths, Action, Event, Orchestrator, OrchestratorConfig};
use agc_rs::platform::Platform;
use agc_rs::toolchain::default_candidates;

/// What the mocked host has and answers.
struct Host {
    existing: Vec<&'static str>,
    brew: Vec<(&'static str, &'static str)>,
    fetch_ok: bool,
    build_ok: bool,
    bridge_ok: bool,
    gmake: bool,
    libgcc: Option<&'static str>,
}

impl Host {
    fn linux() -> Host {
        Host {
            existing: Vec::new(),
            brew: Vec::new(),
            fetch_ok: true,
            build_ok: true,
            bridge_ok: true,
            gmake: false,
            libgcc: None,
        }
    }
}

/// One process that the run asked for.
#[derive(Debug, Clone, PartialEq)]
struct Ran {
    program: String,
    args: Vec<String>,
    env: Vec<(String, String)>,
    inherit: Vec<String>,
}

struct Outcome {
    ran: Vec<Ran>,
    compiler: Option<Option<String>>,
    result: Result<LinkPlan, BuildError>,
}

fn config(platform: Platform, override_dir: Option<&str>) -> OrchestratorConfig {
    OrchestratorConfig {
        platform,
        dependency: DependencyConfig {
            manifest_dir: "/pkg".to_string(),
            override_dir: override_dir.map(|s| s.to_string()),
            system_root: None,
        },
        candidates: default_candidates(),
        policy: MissingArchivePolicy::FallBackToDynamic,
    }
}

fn drive(config: OrchestratorConfig, host: &Host) -> Outcome {
    let mut run = Orchestrator::new(config);
    let mut action = run.start();
    let mut ran = Vec::new();
    let mut compiler = None;
    loop {
        let event = match action {
            Action::CheckPaths(paths) => Event::Existing(
                paths.into_iter().filter(|p| host.existing.contains(&p.as_str())).collect(),
            ),
            Action::Run(inv) => {
                ran.push(Ran {
                    program: inv.program.clone(),
                    args: inv.args.clone(),
                    env: inv.env.iter().map(|e| (e.name.clone(), e.value.clone())).collect(),
                    inherit: inv.inherit.clone(),
                });
                let answer: Option<String> = match (inv.program.as_str(), inv.args.as_slice()) {
                    ("brew", [_, package]) => host
                        .brew
                        .iter()
                        .find(|(name, _)| name == package)
                        .map(|(_, prefix)| prefix.to_string()),
                    ("git", _) => host.fetch_ok.then(String::new),
                    ("gmake", [flag]) if flag == "--version" => host.gmake.then(String::new),
                    ("make" | "gmake", _) => host.build_ok.then(String::new),
                    (_, [arg]) if arg == "-print-libgcc-file-name" => host.libgcc.map(|s| s.to_string()),
                    _ => None,
                };
                Event::Finished { succeeded: answer.is_some(), output: answer.unwrap_or_default() }
            }
            Action::CompileBridge(cfg) => {
                compiler = Some(cfg.cxx_compiler.clone());
                Event::Finished {
                    succeeded: host.bridge_ok,
                    output: if host.bridge_ok { String::new() } else { "bridge error".to_string() },
                }
            }
            Action::Emit(plan) => return Outcome { ran, compiler, result: Ok(plan) },
            Action::Abort(e) => return Outcome { ran, compiler, result: Err(e) },
        };
        action = run.step(event);
    }
}

fn builds(ran: &[Ran]) -> Vec<&Ran> {
    ran.iter().filter(|r| r.args == vec!["-j".to_string()]).collect()
}

const LINUX: Platform = Platform { macos: false, aarch64: false };
const INTEL_MAC: Platform = Platform { macos: true, aarch64: false };

#[test]
fn survey_asks_for_dependency_paths() {
    let cfg = config(LINUX, Some("/opt/agc"));
    assert_eq!(dependency_paths(&cfg.dependency), vec!["/opt/agc/bin/libagc.a"]);
    let mut plain = config(LINUX, None);
    assert_eq!(
        dependency_paths(&plain.dependency),
        vec!["/pkg/agc/makefile", "/pkg/agc/bin/libagc.a"]
    );
    plain.dependency.system_root = Some("/usr/agc".to_string());
    assert_eq!(
        dependency_paths(&plain.dependency),
        vec!["/pkg/agc/makefile", "/pkg/agc/bin/libagc.a", "/usr/agc/bin/libagc.a"]
    );
}

#[test]
fn override_survey_never_looks_at_vendored_tree() {
    let run = Orchestrator::new(config(LINUX, Some("/opt/agc")));
    match run.start() {
        Action::CheckPaths(paths) => {
            assert_eq!(paths, vec!["/opt/agc/bin/libagc.a"]);
            assert!(paths.iter().all(|p| !p.starts_with("/pkg/agc")));
        }
        _ => panic!("the run starts with a survey"),
    }
}

#[test]
fn mac_without_candidates_aborts_at_once() {
    let mut cfg = config(INTEL_MAC, None);
    cfg.candidates = Vec::new();
    let mut host = Host::linux();
    host.existing = vec!["/pkg/agc/makefile"];
    let out = drive(cfg, &host);
    assert!(out.ran.is_empty());
    assert!(matches!(out.result, Err(BuildError::NoCompatibleToolchain { attempted }) if attempted.is_empty()));
}

#[test]
fn override_with_prebuilt_artifact_never_builds() {
    let mut host = Host::linux();
    host.existing = vec!["/opt/agc/bin/libagc.a"];
    let out = drive(config(LINUX, Some("/opt/agc")), &host);
    assert!(out.ran.is_empty());
    let plan = out.result.ok().expect("a plan");
    let lines = render_plan(&plan.directives);
    assert_eq!(lines[0], "cargo:rustc-link-search=native=/opt/agc/bin");
}

#[test]
fn vendored_source_without_artifact_builds_once_with_allow_list() {
    let mut host = Host::linux();
    host.existing = vec!["/pkg/agc/makefile"];
    let out = drive(config(LINUX, None), &host);
    let b = builds(&out.ran);
    assert_eq!(b.len(), 1);
    assert_eq!(b[0].program, "make");
    assert!(b[0].env.is_empty());
    assert!(b[0].inherit.is_empty());
    assert_eq!(out.ran.len(), 1);
    assert!(out.result.is_ok());
}

#[test]
fn mac_build_gets_toolchain_variables_only() {
    let mut host = Host::linux();
    host.existing = vec!["/pkg/agc/makefile"];
    host.brew = vec![("gcc@13", "/p13")];
    host.gmake = true;
    let out = drive(config(INTEL_MAC, None), &host);
    let b = builds(&out.ran);
    assert_eq!(b.len(), 1);
    assert_eq!(b[0].program, "gmake");
    assert!(b[0].inherit.is_empty());
    assert_eq!(
        b[0].env,
        vec![
            ("CC".to_string(), "/p13/bin/gcc-13".to_string()),
            ("CXX".to_string(), "/p13/bin/g++-13".to_string()),
            ("LDFLAGS".to_string(), "-static-libgcc -static-libstdc++".to_string()),
        ]
    );
    assert_eq!(out.compiler, Some(Some("/p13/bin/g++-13".to_string())));
}

#[test]
fn locator_probes_thirteen_then_twelve_and_stops() {
    let mut host = Host::linux();
    host.existing = vec!["/pkg/agc/makefile", "/pkg/agc/bin/libagc.a"];
    host.brew = vec![("gcc@12", "/opt/homebrew/opt/gcc@12")];
    let out = drive(config(INTEL_MAC, None), &host);
    let probes: Vec<String> = out
        .ran
        .iter()
        .filter(|r| r.program == "brew")
        .map(|r| r.args[1].clone())
        .collect();
    assert_eq!(probes, vec!["gcc@13", "gcc@12"]);
    assert_eq!(out.ran[0].program, "brew");
    assert_eq!(out.ran[1].program, "brew");
    assert!(out.ran[2..].iter().all(|r| r.program != "brew"));
    assert_eq!(out.compiler, Some(Some("/opt/homebrew/opt/gcc@12/bin/g++-12".to_string())));
    assert!(builds(&out.ran).is_empty());
    let plan = out.result.ok().expect("a plan");
    let lines = render_plan(&plan.directives);
    assert_eq!(lines[0], "cargo:rustc-link-search=native=/opt/homebrew/opt/gcc@12/lib/gcc/12");
}

#[test]
fn exhausted_candidates_abort_naming_the_list() {
    let mut host = Host::linux();
    host.existing = vec!["/pkg/agc/makefile"];
    let out = drive(config(INTEL_MAC, None), &host);
    assert_eq!(out.ran.len(), 3);
    assert!(builds(&out.ran).is_empty());
    assert_eq!(out.compiler, None);
    match out.result {
        Err(BuildError::NoCompatibleToolchain { attempted }) => {
            assert_eq!(attempted, vec!["13", "12", "11"]);
        }
        _ => panic!("no toolchain was available"),
    }
}

#[test]
fn failed_fetch_aborts_with_source_missing() {
    let mut host = Host::linux();
    host.fetch_ok = false;
    let out = drive(config(LINUX, None), &host);
    assert_eq!(out.ran.len(), 1);
    assert_eq!(out.ran[0].program, "git");
    assert!(matches!(out.result, Err(BuildError::SourceMissing { path }) if path == "/pkg/agc"));
}

#[test]
fn failed_native_build_aborts_before_bridge() {
    let mut host = Host::linux();
    host.existing = vec!["/pkg/agc/makefile"];
    host.build_ok = false;
    let out = drive(config(LINUX, None), &host);
    assert_eq!(out.compiler, None);
    assert!(matches!(out.result, Err(BuildError::NativeBuild { .. })));
}

#[test]
fn failed_bridge_aborts_with_diagnostic() {
    let mut host = Host::linux();
    host.existing = vec!["/pkg/agc/makefile", "/pkg/agc/bin/libagc.a"];
    host.bridge_ok = false;
    let out = drive(config(LINUX, None), &host);
    assert!(matches!(out.result, Err(BuildError::BridgeCompile { diagnostic }) if diagnostic == "bridge error"));
}

#[test]
fn located_toolchain_is_queried_for_its_runtime() {
    let mut host = Host::linux();
    host.existing = vec![
        "/pkg/agc/makefile",
        "/pkg/agc/bin/libagc.a",
        "/p13/lib/gcc/13/libgcc.a",
        "/p13/lib/gcc/13/libstdc++.a",
    ];
    host.brew = vec![("gcc@13", "/p13")];
    host.libgcc = Some("/p13/lib/gcc/13/libgcc.a");
    let out = drive(config(INTEL_MAC, None), &host);
    assert!(out.ran.iter().any(|r| r.args == vec!["-print-libgcc-file-name".to_string()]));
    let plan = out.result.ok().expect("a plan");
    assert_eq!(plan.missing, vec!["libatomic.a"]);
    let lines = render_plan(&plan.directives);
    assert!(lines.contains(&"cargo:rustc-link-arg=-Wl,-force_load,/p13/lib/gcc/13/libgcc.a".to_string()));
    assert!(lines.contains(&"cargo:rustc-link-lib=dylib=atomic".to_string()));
}
