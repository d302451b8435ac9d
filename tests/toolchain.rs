use agc_rs::error::BuildError;
use agc_rs::toolchain::{
    default_candidates, formula, probe_accepts, select_toolchain, ResolvedToolchain, SearchStep,
    ToolchainSearch,
};

fn strings(items: &[&str]) -> Vec<String> {
    items.iter().map(|s| s.to_string()).collect()
}

/// Drives a search with a mock probe; returns the packages probed and the result.
fn run_search(candidates: Vec<String>, available: &[(&str, &str)]) -> (Vec<String>, SearchStep) {
    let mut search = ToolchainSearch::new(candidates);
    let mut probed = Vec::new();
    let mut step = search.first_step();
    loop {
        match step {
            SearchStep::Probe(package) => {
                let outcome = available
                    .iter()
                    .find(|(name, _)| *name == package)
                    .map(|(_, prefix)| prefix.to_string());
                probed.push(package);
                step = search.observe(outcome);
            }
            done => return (probed, done),
        }
    }
}

#[test]
fn default_candidates_descend_from_thirteen() {
    assert_eq!(default_candidates(), strings(&["13", "12", "11"]));
}

#[test]
fn formula_names_the_versioned_package() {
    assert_eq!(formula("12"), "gcc@12");
}

#[test]
fn probe_outcomes() {
    assert!(probe_accepts(&Some("/opt/homebrew/opt/gcc@12".to_string())));
    assert!(!probe_accepts(&Some(String::new())));
    assert!(!probe_accepts(&None));
}

#[test]
fn toolchain_paths_follow_prefix_and_version() {
    let t = ResolvedToolchain { version: "13".to_string(), prefix: "/opt/gcc".to_string() };
    assert_eq!(t.c_compiler_name(), "gcc-13");
    assert_eq!(t.cxx_compiler_name(), "g++-13");
    assert_eq!(t.c_compiler(), "/opt/gcc/bin/gcc-13");
    assert_eq!(t.cxx_compiler(), "/opt/gcc/bin/g++-13");
    assert_eq!(t.runtime_dir(), "/opt/gcc/lib/gcc/13");
    assert_eq!(t.lib_dir(), "/opt/gcc/lib");
}

#[test]
fn selection_picks_most_preferred_available() {
    let candidates = strings(&["13", "12", "11"]);
    let probes = vec![None, Some("/p12".to_string()), Some("/p11".to_string())];
    match select_toolchain(&candidates, &probes) {
        Ok(t) => {
            assert_eq!(t.version, "12");
            assert_eq!(t.prefix, "/p12");
        }
        Err(_) => panic!("a candidate was available"),
    }
}

#[test]
fn selection_ignores_empty_prefixes() {
    let candidates = strings(&["13", "12"]);
    let probes = vec![Some(String::new()), Some("/p12".to_string())];
    match select_toolchain(&candidates, &probes) {
        Ok(t) => assert_eq!(t.version, "12"),
        Err(_) => panic!("a candidate was available"),
    }
}

#[test]
fn selection_is_the_same_for_the_same_availability() {
    let candidates = strings(&["13", "12", "11"]);
    let first = vec![None, Some("/a".to_string()), Some("/b".to_string())];
    let second = vec![Some(String::new()), Some("/c".to_string()), None];
    let v1 = select_toolchain(&candidates, &first).ok().map(|t| t.version);
    let v2 = select_toolchain(&candidates, &second).ok().map(|t| t.version);
    assert_eq!(v1, Some("12".to_string()));
    assert_eq!(v1, v2);
}

#[test]
fn selection_exhausted_names_every_candidate() {
    let candidates = strings(&["13", "12", "11"]);
    let probes = vec![None, None, None];
    match select_toolchain(&candidates, &probes) {
        Err(BuildError::NoCompatibleToolchain { attempted }) => assert_eq!(attempted, candidates),
        _ => panic!("no candidate was available"),
    }
}

#[test]
fn search_resolves_twelve_after_probing_thirteen() {
    let (probed, result) = run_search(strings(&["13", "12", "11"]), &[("gcc@12", "/opt/gcc@12")]);
    assert_eq!(probed, strings(&["gcc@13", "gcc@12"]));
    match result {
        SearchStep::Found(t) => {
            assert_eq!(t.version, "12");
            assert_eq!(t.prefix, "/opt/gcc@12");
        }
        _ => panic!("gcc@12 was available"),
    }
}

#[test]
fn search_stops_at_first_candidate() {
    let (probed, result) = run_search(
        strings(&["13", "12", "11"]),
        &[("gcc@13", "/p13"), ("gcc@11", "/p11")],
    );
    assert_eq!(probed, strings(&["gcc@13"]));
    assert!(matches!(result, SearchStep::Found(t) if t.version == "13"));
}

#[test]
fn search_exhausted_names_full_list() {
    let (probed, result) = run_search(strings(&["13", "12", "11"]), &[]);
    assert_eq!(probed, strings(&["gcc@13", "gcc@12", "gcc@11"]));
    match result {
        SearchStep::Exhausted(e) => {
            assert!(matches!(&e, BuildError::NoCompatibleToolchain { attempted }
                if *attempted == strings(&["13", "12", "11"])));
            assert_eq!(
                e.message(),
                "no compatible GCC found (tried gcc@13, gcc@12, gcc@11); install one with: brew install gcc@13"
            );
        }
        _ => panic!("nothing was available"),
    }
}

#[test]
fn search_with_no_candidates_is_exhausted_at_once() {
    let (probed, result) = run_search(Vec::new(), &[("gcc@13", "/p")]);
    assert!(probed.is_empty());
    assert!(matches!(result, SearchStep::Exhausted(_)));
}

#[test]
fn selection_treats_missing_outcomes_as_not_found() {
    let candidates = strings(&["13", "12", "11"]);
    let probes = vec![None];
    assert!(matches!(select_toolchain(&candidates, &probes), Err(BuildError::NoCompatibleToolchain { .. })));
    let longer = vec![None, None, None, Some("/p10".to_string())];
    assert!(select_toolchain(&candidates, &longer).is_err());
}
