use agc_rs::command::EnvVar;
use agc_rs::dependency::DependencySource;
use agc_rs::error::BuildError;
use agc_rs::native_build::{build_env, native_build_outcome, plan_native_build};
use agc_rs::platform::Platform;
use agc_rs::toolchain::{ResolvedToolchain, Toolchain};

fn gcc13() -> Toolchain {
    Toolchain::Alternate(ResolvedToolchain {
        version: "13".to_string(),
        prefix: "/opt/homebrew/opt/gcc@13".to_string(),
    })
}

fn pairs(env: &[EnvVar]) -> Vec<(String, String)> {
    env.iter().map(|e| (e.name.clone(), e.value.clone())).collect()
}

fn owned(items: &[(&str, &str)]) -> Vec<(String, String)> {
    items.iter().map(|(a, b)| (a.to_string(), b.to_string())).collect()
}

#[test]
fn existing_artifact_means_no_process() {
    let source = DependencySource::VendoredSource {
        root: "/agc".to_string(),
        needs_build: false,
        needs_fetch: false,
    };
    let mac = Platform { macos: true, aarch64: true };
    assert!(plan_native_build(mac, &source, &gcc13(), true).is_none());
    let installed = DependencySource::SystemInstall { root: "/usr/agc".to_string() };
    assert!(plan_native_build(mac, &installed, &gcc13(), true).is_none());
}

#[test]
fn arm_mac_build_env_is_the_allow_list() {
    let mac = Platform { macos: true, aarch64: true };
    assert_eq!(
        pairs(&build_env(mac, &gcc13())),
        owned(&[
            ("CC", "/opt/homebrew/opt/gcc@13/bin/gcc-13"),
            ("CXX", "/opt/homebrew/opt/gcc@13/bin/g++-13"),
            ("PLATFORM", "arm8"),
            ("LDFLAGS", "-static-libgcc -static-libstdc++"),
        ])
    );
}

#[test]
fn intel_mac_build_env_has_no_platform_hint() {
    let mac = Platform { macos: true, aarch64: false };
    assert_eq!(
        pairs(&build_env(mac, &gcc13())),
        owned(&[
            ("CC", "/opt/homebrew/opt/gcc@13/bin/gcc-13"),
            ("CXX", "/opt/homebrew/opt/gcc@13/bin/g++-13"),
            ("LDFLAGS", "-static-libgcc -static-libstdc++"),
        ])
    );
}

#[test]
fn default_toolchain_sets_no_variables() {
    assert!(build_env(Platform { macos: false, aarch64: true }, &Toolchain::SystemDefault).is_empty());
}

#[test]
fn mac_build_prefers_gmake() {
    let source = DependencySource::VendoredSource {
        root: "/agc".to_string(),
        needs_build: true,
        needs_fetch: false,
    };
    let mac = Platform { macos: true, aarch64: false };
    let with = plan_native_build(mac, &source, &gcc13(), true).expect("a build");
    assert_eq!(with.program, "gmake");
    assert_eq!(with.cwd, "/agc");
    assert_eq!(with.args, vec!["-j".to_string()]);
    assert!(with.inherit.is_empty());
    assert_eq!(pairs(&with.env)[0], ("CC".to_string(), "/opt/homebrew/opt/gcc@13/bin/gcc-13".to_string()));
    let without = plan_native_build(mac, &source, &gcc13(), false).expect("a build");
    assert_eq!(without.program, "make");
    let linux = Platform { macos: false, aarch64: false };
    let other = plan_native_build(linux, &source, &Toolchain::SystemDefault, true).expect("a build");
    assert_eq!(other.program, "make");
}

#[test]
fn failed_build_keeps_output() {
    assert!(native_build_outcome(true, "ok".to_string()).is_ok());
    match native_build_outcome(false, "error: no rule".to_string()) {
        Err(e) => {
            assert!(matches!(&e, BuildError::NativeBuild { output } if output == "error: no rule"));
            assert_eq!(e.message(), "AGC build failed:\nerror: no rule");
        }
        Ok(()) => panic!("the build failed"),
    }
}
