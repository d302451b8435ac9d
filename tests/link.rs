use agc_rs::error::BuildError;
use agc_rs::link::{
    gcc_eh_query, libgcc_query, render_plan, rerun_triggers, runtime_archives,
    synthesize_link_plan, LinkDirective, LinkFacts, MissingArchivePolicy,
};
use agc_rs::platform::Platform;
use agc_rs::toolchain::{ResolvedToolchain, Toolchain};

const ARM_MAC: Platform = Platform { macos: true, aarch64: true };
const LINUX: Platform = Platform { macos: false, aarch64: false };

fn gcc13() -> ResolvedToolchain {
    ResolvedToolchain { version: "13".to_string(), prefix: "/gcc".to_string() }
}

fn facts(existing: &[&str]) -> LinkFacts {
    LinkFacts {
        existing: existing.iter().map(|s| s.to_string()).collect(),
        libgcc_path: Some("/gcc/libgcc.a".to_string()),
        gcc_eh_path: Some("/gcc/libgcc_eh.a".to_string()),
    }
}

const ALL: [&str; 5] = [
    "/gcc/libgcc.a",
    "/gcc/lib/gcc/13/libstdc++.a",
    "/gcc/lib/gcc/13/libatomic.a",
    "/gcc/libgcc_eh.a",
    "/agc/3rd_party/zstd/lib/libzstd.a",
];

fn lines(directives: &Vec<LinkDirective>) -> Vec<String> {
    render_plan(directives)
}

fn position(lines: &[String], line: &str) -> Option<usize> {
    lines.iter().position(|l| l == line)
}

#[test]
fn arm_mac_plan_force_loads_every_runtime_archive() {
    let plan = synthesize_link_plan(
        ARM_MAC,
        "/agc",
        &Toolchain::Alternate(gcc13()),
        &facts(&ALL),
        MissingArchivePolicy::FallBackToDynamic,
    )
    .ok()
    .expect("a plan");
    assert!(plan.missing.is_empty());
    assert_eq!(
        lines(&plan.directives),
        vec![
            "cargo:rustc-link-search=native=/gcc/lib/gcc/13",
            "cargo:rustc-link-search=native=/gcc/lib",
            "cargo:rustc-link-arg=-Wl,-force_load,/gcc/libgcc.a",
            "cargo:rustc-link-arg=-Wl,-force_load,/gcc/lib/gcc/13/libstdc++.a",
            "cargo:rustc-link-arg=-Wl,-force_load,/gcc/lib/gcc/13/libatomic.a",
            "cargo:rustc-link-arg=-Wl,-force_load,/gcc/libgcc_eh.a",
            "cargo:rustc-link-search=native=/agc/bin",
            "cargo:rustc-link-lib=static=agc",
            "cargo:rustc-link-search=native=/agc/3rd_party/zstd/lib",
            "cargo:rustc-link-lib=static=zstd",
            "cargo:rustc-link-search=native=/opt/homebrew/lib",
            "cargo:rustc-link-search=native=/usr/local/lib",
            "cargo:rustc-link-arg=-Wl,-force_load,/agc/3rd_party/zstd/lib/libzstd.a",
            "cargo:rustc-link-lib=dylib=gcc_s.1",
            "cargo:rustc-link-lib=dylib=z",
            "cargo:rustc-link-lib=dylib=pthread",
        ]
    );
}

#[test]
fn absent_stdcxx_archive_falls_back_to_shared_library() {
    let existing = ["/gcc/libgcc.a", "/gcc/lib/gcc/13/libatomic.a"];
    let plan = synthesize_link_plan(
        ARM_MAC,
        "/agc",
        &Toolchain::Alternate(gcc13()),
        &facts(&existing),
        MissingArchivePolicy::FallBackToDynamic,
    )
    .ok()
    .expect("a plan");
    let out = lines(&plan.directives);
    assert!(position(&out, "cargo:rustc-link-lib=dylib=stdc++").is_some());
    assert!(position(&out, "cargo:rustc-link-arg=-Wl,-force_load,/gcc/lib/gcc/13/libstdc++.a").is_none());
    assert!(position(&out, "cargo:rustc-link-arg=-Wl,-force_load,/agc/3rd_party/zstd/lib/libzstd.a").is_none());
    assert_eq!(plan.missing, vec!["libstdc++.a", "libgcc_eh.a"]);
}

#[test]
fn force_loads_precede_shared_libraries() {
    let existing = ["/gcc/libgcc.a", "/gcc/lib/gcc/13/libstdc++.a"];
    let plan = synthesize_link_plan(
        ARM_MAC,
        "/agc",
        &Toolchain::Alternate(gcc13()),
        &facts(&existing),
        MissingArchivePolicy::FallBackToDynamic,
    )
    .ok()
    .expect("a plan");
    let last_force = plan
        .directives
        .iter()
        .rposition(|d| matches!(d, LinkDirective::ForceLoadArchive(_)))
        .expect("a force-load");
    let first_shared = plan
        .directives
        .iter()
        .position(|d| matches!(d, LinkDirective::DynamicLib(_)))
        .expect("a shared library");
    assert!(last_force < first_shared);
    let out = lines(&plan.directives);
    assert!(
        position(&out, "cargo:rustc-link-arg=-Wl,-force_load,/gcc/libgcc.a").unwrap()
            < position(&out, "cargo:rustc-link-lib=dylib=gcc_s.1").unwrap()
    );
    assert!(position(&out, "cargo:rustc-link-lib=dylib=atomic").is_some());
}

#[test]
fn bare_name_from_toolchain_is_not_force_loaded() {
    let mut f = facts(&["libgcc_eh.a"]);
    f.gcc_eh_path = Some("libgcc_eh.a".to_string());
    let archives = runtime_archives(ARM_MAC, &gcc13(), &f);
    assert_eq!(archives.len(), 4);
    assert_eq!(archives[3].name, "libgcc_eh.a");
    assert!(archives[3].archive.is_none());
    let intel = runtime_archives(Platform { macos: true, aarch64: false }, &gcc13(), &facts(&ALL));
    assert_eq!(intel.len(), 3);
    assert!(intel.iter().all(|a| a.archive.is_some()));
    assert_eq!(intel[1].fallback.as_deref(), Some("stdc++"));
}

#[test]
fn require_static_refuses_missing_archive() {
    let existing = ["/gcc/libgcc.a", "/gcc/lib/gcc/13/libstdc++.a", "/gcc/libgcc_eh.a"];
    match synthesize_link_plan(
        ARM_MAC,
        "/agc",
        &Toolchain::Alternate(gcc13()),
        &facts(&existing),
        MissingArchivePolicy::RequireStatic,
    ) {
        Err(e) => {
            assert!(matches!(&e, BuildError::LinkResourceMissing { resource } if resource == "libatomic.a"));
            assert_eq!(e.message(), "runtime archive libatomic.a not found in static form");
        }
        Ok(_) => panic!("libatomic.a is missing"),
    }
    assert!(synthesize_link_plan(
        ARM_MAC,
        "/agc",
        &Toolchain::Alternate(gcc13()),
        &facts(&ALL),
        MissingArchivePolicy::RequireStatic,
    )
    .is_ok());
}

#[test]
fn linux_plan_with_default_toolchain() {
    let plan = synthesize_link_plan(
        LINUX,
        "/agc",
        &Toolchain::SystemDefault,
        &facts(&ALL),
        MissingArchivePolicy::RequireStatic,
    )
    .ok()
    .expect("a plan");
    assert_eq!(
        lines(&plan.directives),
        vec![
            "cargo:rustc-link-search=native=/agc/bin",
            "cargo:rustc-link-lib=static=agc",
            "cargo:rustc-link-search=native=/agc/3rd_party/zstd/lib",
            "cargo:rustc-link-lib=static=zstd",
            "cargo:rustc-link-lib=dylib=z",
            "cargo:rustc-link-lib=dylib=pthread",
            "cargo:rustc-link-lib=dylib=stdc++",
        ]
    );
}

#[test]
fn raw_arguments_render_unchanged() {
    assert_eq!(LinkDirective::LinkerRawArg("-Wl,-x".to_string()).render(), "cargo:rustc-link-arg=-Wl,-x");
}

#[test]
fn toolchain_queries() {
    let q = libgcc_query(&gcc13());
    assert_eq!(q.program, "/gcc/bin/gcc-13");
    assert_eq!(q.args, vec!["-print-libgcc-file-name"]);
    let e = gcc_eh_query(&gcc13());
    assert_eq!(e.args, vec!["-print-file-name=libgcc_eh.a"]);
    assert_eq!(e.inherit, vec!["PATH"]);
}

#[test]
fn rerun_triggers_name_inputs() {
    assert_eq!(
        rerun_triggers(),
        vec![
            "cargo:rerun-if-env-changed=AGC_DIR",
            "cargo:rerun-if-changed=app/agc_file.rs",
            "cargo:rerun-if-changed=src/agc_bridge.cpp",
            "cargo:rerun-if-changed=src/agc_bridge.h",
        ]
    );
}

#[test]
fn paths_to_check_cover_every_archive() {
    let paths = agc_rs::link::paths_to_check(
        "/agc",
        &Toolchain::Alternate(gcc13()),
        &Some("/gcc/libgcc.a".to_string()),
        &None,
    );
    assert_eq!(
        paths,
        vec![
            "/gcc/libgcc.a",
            "/gcc/lib/gcc/13/libstdc++.a",
            "/gcc/lib/gcc/13/libatomic.a",
            "/agc/3rd_party/zstd/lib/libzstd.a",
        ]
    );
    assert_eq!(
        agc_rs::link::paths_to_check("/agc", &Toolchain::SystemDefault, &None, &None),
        vec!["/agc/3rd_party/zstd/lib/libzstd.a"]
    );
}
