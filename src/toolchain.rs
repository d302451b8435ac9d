//! Locating a compiler toolchain that AGC accepts.
//!
//! Candidates are version identifiers tried in order of preference. Each is
//! probed through the package manager, which reports the installation prefix
//! of the matching compiler package, or nothing.
use vstd::prelude::*;

use crate::command::{Capture, Invocation};
use crate::error::BuildError;
use crate::paths::{concat, copy_all, join, joined, views};

verus! {

/// The versions AGC accepts, highest preference first: AGC rejects newer ones.
pub fn default_candidates() -> (r: Vec<String>)
    ensures
        views(r@) == seq!["13"@, "12"@, "11"@],
{
    let r = vec![String::from_str("13"), String::from_str("12"), String::from_str("11")];
    assert(views(r@) =~= seq!["13"@, "12"@, "11"@]);
    r
}

/// The package manager's name for the compiler of `version`.
pub open spec fn formula_spec(version: Seq<char>) -> Seq<char> {
    "gcc@"@ + version
}

/// The package to query for the compiler of `version`.
pub fn formula(version: &str) -> (r: String)
    ensures
        r@ == formula_spec(version@),
{
    concat("gcc@", version)
}

/// The package manager asked for the installation prefix of `package`.
pub open spec fn is_probe_command(inv: Invocation, package: Seq<char>) -> bool {
    &&& inv.program@ == "brew"@
    &&& inv.args@.map_values(|a: String| a@) == seq!["--prefix"@, package]
    &&& inv.cwd@ == "."@
    &&& inv.env@.len() == 0
    &&& inv.inherit@.map_values(|a: String| a@) == seq!["PATH"@, "HOME"@]
    &&& inv.capture == Capture::TrimmedStdout
}

/// The probe for a package: its outcome, trimmed, is what `observe` takes.
pub fn probe_command(package: &str) -> (r: Invocation)
    ensures
        is_probe_command(r, package@),
{
    let args = vec![String::from_str("--prefix"), package.to_owned()];
    let inherit = vec![String::from_str("PATH"), String::from_str("HOME")];
    assert(args@.map_values(|a: String| a@) =~= seq!["--prefix"@, package@]);
    assert(inherit@.map_values(|a: String| a@) =~= seq!["PATH"@, "HOME"@]);
    Invocation {
        program: String::from_str("brew"),
        args,
        cwd: String::from_str("."),
        env: Vec::new(),
        inherit,
        capture: Capture::TrimmedStdout,
    }
}

/// Whether a probe found the toolchain: it reported a non-empty prefix.
pub open spec fn accepts(outcome: Option<String>) -> bool {
    match outcome {
        Some(prefix) => prefix@.len() > 0,
        None => false,
    }
}

/// Tests a probe's outcome, which is the prefix the package manager printed
/// (surrounding white space removed), or `None` where the probe failed or
/// the package manager is absent.
pub fn probe_accepts(outcome: &Option<String>) -> (r: bool)
    ensures
        r == accepts(*outcome),
{
    match outcome {
        Some(prefix) => !prefix.as_str().is_empty(),
        None => false,
    }
}

/// A toolchain that was found: its version and its installation prefix.
pub struct ResolvedToolchain {
    pub version: String,
    pub prefix: String,
}

/// The compiler that builds AGC and the bridge: the platform's default, or
/// one that was located.
pub enum Toolchain {
    SystemDefault,
    Alternate(ResolvedToolchain),
}

/// `{prefix}/bin/{program}-{version}`.
pub open spec fn tool_path(prefix: Seq<char>, program: Seq<char>, version: Seq<char>) -> Seq<char> {
    joined(joined(prefix, "bin"@), program + "-"@ + version)
}

/// `{prefix}/lib/gcc/{version}`, where the runtime archives of the toolchain lie.
pub open spec fn runtime_dir_spec(prefix: Seq<char>, version: Seq<char>) -> Seq<char> {
    joined(joined(joined(prefix, "lib"@), "gcc"@), version)
}

impl ResolvedToolchain {
    /// The C compiler's name as the native build looks it up: `gcc-{version}`.
    pub fn c_compiler_name(&self) -> (r: String)
        ensures
            r@ == "gcc"@ + "-"@ + self.version@,
    {
        let g = concat("gcc", "-");
        concat(g.as_str(), self.version.as_str())
    }

    /// The C++ compiler's name as the native build looks it up: `g++-{version}`.
    pub fn cxx_compiler_name(&self) -> (r: String)
        ensures
            r@ == "g++"@ + "-"@ + self.version@,
    {
        let g = concat("g++", "-");
        concat(g.as_str(), self.version.as_str())
    }

    /// The full path of the C compiler.
    pub fn c_compiler(&self) -> (r: String)
        ensures
            r@ == tool_path(self.prefix@, "gcc"@, self.version@),
    {
        let bin = join(self.prefix.as_str(), "bin");
        let name = self.c_compiler_name();
        join(bin.as_str(), name.as_str())
    }

    /// The full path of the C++ compiler.
    pub fn cxx_compiler(&self) -> (r: String)
        ensures
            r@ == tool_path(self.prefix@, "g++"@, self.version@),
    {
        let bin = join(self.prefix.as_str(), "bin");
        let name = self.cxx_compiler_name();
        join(bin.as_str(), name.as_str())
    }

    /// The directory of the toolchain's runtime archives.
    pub fn runtime_dir(&self) -> (r: String)
        ensures
            r@ == runtime_dir_spec(self.prefix@, self.version@),
    {
        let lib = join(self.prefix.as_str(), "lib");
        let gcc = join(lib.as_str(), "gcc");
        join(gcc.as_str(), self.version.as_str())
    }

    /// The prefix's general library directory, `{prefix}/lib`.
    pub fn lib_dir(&self) -> (r: String)
        ensures
            r@ == joined(self.prefix@, "lib"@),
    {
        join(self.prefix.as_str(), "lib")
    }
}

/// The first index at or after `from` whose probe found a toolchain, or the
/// length of `probes` where none did.
pub open spec fn first_accepted(probes: Seq<Option<String>>, from: int) -> int
    decreases probes.len() - from,
{
    if from >= probes.len() {
        probes.len() as int
    } else if accepts(probes[from]) {
        from
    } else {
        first_accepted(probes, from + 1)
    }
}

/// `r` is the toolchain of candidate `k`, with the prefix that its probe found.
pub open spec fn is_candidate(
    r: ResolvedToolchain,
    candidates: Seq<String>,
    probes: Seq<Option<String>>,
    k: int,
) -> bool {
    &&& 0 <= k < candidates.len()
    &&& r.version@ == candidates[k]@
    &&& probes[k] matches Some(p) && r.prefix@ == p@
}

/// `e` names every candidate, in order, as the ones that were tried.
pub open spec fn exhausted(e: BuildError, candidates: Seq<String>) -> bool {
    e matches BuildError::NoCompatibleToolchain { attempted } && views(attempted@) == views(
        candidates,
    )
}

/// Whether the first candidate found has a probe outcome and is a candidate.
pub open spec fn selects(candidates: Seq<String>, probes: Seq<Option<String>>) -> bool {
    first_accepted(probes, 0) < probes.len() && first_accepted(probes, 0) < candidates.len()
}

/// Picks the most preferred candidate whose probe found it.
/// `probes[i]` is the outcome of probing `candidates[i]`; a candidate with no
/// outcome counts as not found.
pub fn select_toolchain(candidates: &Vec<String>, probes: &Vec<Option<String>>) -> (r: Result<
    ResolvedToolchain,
    BuildError,
>)
    ensures
        selects(candidates@, probes@) ==> (r matches Ok(t) && is_candidate(
            t,
            candidates@,
            probes@,
            first_accepted(probes@, 0),
        )),
        !selects(candidates@, probes@) ==> (r matches Err(e) && exhausted(e, candidates@)),
{
    let mut i: usize = 0;
    while i < candidates.len() && i < probes.len()
        invariant
            i <= candidates.len(),
            i <= probes.len(),
            first_accepted(probes@, 0) == first_accepted(probes@, i as int),
        decreases candidates.len() - i,
    {
        if probe_accepts(&probes[i]) {
            match &probes[i] {
                Some(prefix) => {
                    return Ok(ResolvedToolchain { version: candidates[i].clone(), prefix: prefix.clone() });
                },
                None => {},
            }
        }
        i = i + 1;
    }
    proof {
        lemma_first_accepted_from(probes@, i as int);
    }
    Err(BuildError::NoCompatibleToolchain { attempted: copy_all(candidates) })
}

/// What the caller does next while searching for a toolchain.
pub enum SearchStep {
    /// Ask the package manager for the prefix of this package.
    Probe(String),
    /// The search is over: this toolchain was found.
    Found(ResolvedToolchain),
    /// The search is over: no candidate was found.
    Exhausted(BuildError),
}

/// A search that probes the candidates one at a time, in order, and stops at
/// the first one found.
pub struct ToolchainSearch {
    candidates: Vec<String>,
    next: usize,
    found: bool,
}

/// What a search asks for while candidate `next` is the one to probe.
pub open spec fn asks(step: SearchStep, candidates: Seq<String>, next: int) -> bool {
    if next < candidates.len() {
        step matches SearchStep::Probe(f) && f@ == formula_spec(candidates[next]@)
    } else {
        step matches SearchStep::Exhausted(e) && exhausted(e, candidates)
    }
}

impl ToolchainSearch {
    /// The candidates, in order.
    pub closed spec fn candidates(&self) -> Seq<String> {
        self.candidates@
    }

    /// The index of the candidate that is probed next.
    pub closed spec fn next(&self) -> int {
        self.next as int
    }

    /// Whether a toolchain has been found, which ends the search.
    pub closed spec fn found(&self) -> bool {
        self.found
    }

    /// A search that has probed nothing yet.
    pub fn new(candidates: Vec<String>) -> (s: Self)
        ensures
            s.candidates() == candidates@,
            s.next() == 0,
            !s.found(),
    {
        ToolchainSearch { candidates, next: 0, found: false }
    }

    /// The step to take before any probe outcome is known: probe the first
    /// candidate, or give up at once where there is none.
    pub fn first_step(&self) -> (r: SearchStep)
        requires
            !self.found(),
        ensures
            asks(r, self.candidates(), self.next()),
    {
        if self.next < self.candidates.len() {
            SearchStep::Probe(formula(self.candidates[self.next].as_str()))
        } else {
            SearchStep::Exhausted(
                BuildError::NoCompatibleToolchain { attempted: copy_all(&self.candidates) },
            )
        }
    }

    /// Takes the outcome of probing the current candidate. A toolchain that
    /// was found ends the search; otherwise the next candidate is asked for,
    /// or the search is exhausted.
    pub fn observe(&mut self, outcome: Option<String>) -> (r: SearchStep)
        requires
            !old(self).found(),
            0 <= old(self).next() < old(self).candidates().len(),
        ensures
            observed(*old(self), *final(self), outcome),
            accepts(outcome) ==> {
                &&& r matches SearchStep::Found(t)
                &&& t.version@ == old(self).candidates()[old(self).next()]@
                &&& outcome matches Some(p) && t.prefix@ == p@
            },
            !accepts(outcome) ==> asks(r, final(self).candidates(), final(self).next()),
    {
        if probe_accepts(&outcome) {
            match outcome {
                Some(prefix) => {
                    self.found = true;
                    let version = self.candidates[self.next].clone();
                    return SearchStep::Found(ResolvedToolchain { version, prefix });
                },
                None => {},
            }
        }
        let n = self.candidates.len();
        assert(self.next < n);
        self.next = self.next + 1;
        self.first_step()
    }
}

proof fn lemma_first_accepted_from(probes: Seq<Option<String>>, from: int)
    requires
        0 <= from <= probes.len(),
    ensures
        from <= first_accepted(probes, from) <= probes.len(),
        first_accepted(probes, from) < probes.len() ==> accepts(
            probes[first_accepted(probes, from)],
        ),
        forall|j: int| from <= j < first_accepted(probes, from) ==> !accepts(#[trigger] probes[j]),
    decreases probes.len() - from,
{
    if from < probes.len() && !accepts(probes[from]) {
        lemma_first_accepted_from(probes, from + 1);
    }
}

/// The selected candidate is found, and every more preferred one is not.
pub proof fn lemma_selection_is_most_preferred(probes: Seq<Option<String>>)
    ensures
        0 <= first_accepted(probes, 0) <= probes.len(),
        first_accepted(probes, 0) < probes.len() ==> accepts(probes[first_accepted(probes, 0)]),
        forall|j: int| 0 <= j < first_accepted(probes, 0) ==> !accepts(#[trigger] probes[j]),
{
    lemma_first_accepted_from(probes, 0);
}

proof fn lemma_same_availability_from(p1: Seq<Option<String>>, p2: Seq<Option<String>>, from: int)
    requires
        0 <= from <= p1.len(),
        p1.len() == p2.len(),
        forall|i: int| 0 <= i < p1.len() ==> accepts(#[trigger] p1[i]) == accepts(p2[i]),
    ensures
        first_accepted(p1, from) == first_accepted(p2, from),
    decreases p1.len() - from,
{
    if from < p1.len() && !accepts(p1[from]) {
        lemma_same_availability_from(p1, p2, from + 1);
    }
}

/// The selection depends on nothing but which candidates are available:
/// two sets of probe outcomes that agree on that select the same candidate,
/// whatever prefixes were printed and whatever order the probes ran in.
pub proof fn lemma_selection_depends_on_availability(
    p1: Seq<Option<String>>,
    p2: Seq<Option<String>>,
)
    requires
        p1.len() == p2.len(),
        forall|i: int| 0 <= i < p1.len() ==> accepts(#[trigger] p1[i]) == accepts(p2[i]),
    ensures
        first_accepted(p1, 0) == first_accepted(p2, 0),
{
    lemma_same_availability_from(p1, p2, 0);
}

/// `after` is what `observe` leaves of `before` when probing candidate
/// `before.next()` gave `outcome`.
pub open spec fn observed(before: ToolchainSearch, after: ToolchainSearch, outcome: Option<String>) -> bool {
    &&& !before.found()
    &&& 0 <= before.next() < before.candidates().len()
    &&& after.candidates() == before.candidates()
    &&& accepts(outcome) ==> after.found() && after.next() == before.next()
    &&& !accepts(outcome) ==> !after.found() && after.next() == before.next() + 1
}

proof fn lemma_first_accepted_is(probes: Seq<Option<String>>, from: int, m: int)
    requires
        0 <= from <= m < probes.len(),
        accepts(probes[m]),
        forall|j: int| from <= j < m ==> !accepts(#[trigger] probes[j]),
    ensures
        first_accepted(probes, from) == m,
    decreases m - from,
{
    if from < m {
        lemma_first_accepted_is(probes, from + 1, m);
    }
}

/// Over the states of a search, observation after observation, where
/// `probes[i]` is what probing candidate `i` reports: the candidates are
/// probed one at a time in order of preference, each one before the last
/// was not found, and a search that ends with a toolchain found ends at the
/// most preferred available candidate, with no probe after it.
pub proof fn lemma_search_probes_in_order(states: Seq<ToolchainSearch>, probes: Seq<Option<String>>)
    requires
        states.len() >= 1,
        states[0].next() == 0,
        probes.len() == states[0].candidates().len(),
        forall|k: int|
            0 <= k < states.len() - 1 ==> #[trigger] observed(
                states[k],
                states[k + 1],
                probes[states[k].next()],
            ),
    ensures
        forall|k: int|
            0 <= k < states.len() ==> #[trigger] states[k].candidates() == states[0].candidates(),
        forall|k: int| 0 <= k < states.len() - 1 ==> #[trigger] states[k].next() == k,
        forall|k: int| 0 <= k < states.len() - 2 ==> !accepts(#[trigger] probes[k]),
        states.len() >= 2 && states[states.len() - 1].found() ==> states[states.len()
            - 1].next() == first_accepted(probes, 0),
    decreases states.len(),
{
    if states.len() >= 2 {
        let prefix = states.drop_last();
        assert forall|k: int| 0 <= k < prefix.len() - 1 implies #[trigger] observed(
            prefix[k],
            prefix[k + 1],
            probes[prefix[k].next()],
        ) by {
            assert(observed(states[k], states[k + 1], probes[states[k].next()]));
        }
        lemma_search_probes_in_order(prefix, probes);
        let n = states.len();
        assert forall|k: int| 0 <= k < n implies #[trigger] states[k].candidates()
            == states[0].candidates() by {
            if k < n - 1 {
                assert(prefix[k].candidates() == prefix[0].candidates());
            } else {
                let j = n - 2;
                assert(prefix[j].candidates() == prefix[0].candidates());
                assert(observed(states[j], states[j + 1], probes[states[j].next()]));
                assert(states[j + 1] == states[k]);
            }
        }
        assert forall|k: int| 0 <= k < n - 1 implies #[trigger] states[k].next() == k by {
            if k < n - 2 {
                assert(prefix[k].next() == k);
            } else if k > 0 {
                let j = k - 1;
                assert(prefix[j].next() == j);
                assert(observed(states[k], states[k + 1], probes[states[k].next()]));
                assert(observed(states[j], states[j + 1], probes[states[j].next()]));
                assert(states[j + 1] == states[k]);
            }
        }
        assert forall|k: int| 0 <= k < n - 2 implies !accepts(#[trigger] probes[k]) by {
            assert(states[k].next() == k);
            assert(observed(states[k], states[k + 1], probes[states[k].next()]));
            let j = k + 1;
            assert(observed(states[j], states[j + 1], probes[states[j].next()]));
        }
        if states[n - 1].found() {
            let j = n - 2;
            assert(states[j].next() == j);
            assert(observed(states[j], states[j + 1], probes[states[j].next()]));
            assert(states[j + 1] == states[n - 1]);
            lemma_first_accepted_is(probes, 0, n - 2);
        }
    }
}

/// A search and `select_toolchain` agree: over the states of a search,
/// observation after observation, where `probes[i]` is what probing
/// candidate `i` reports, a search that ends with a toolchain found has
/// found the candidate that `select_toolchain` picks from the same
/// outcomes, and a search that probed every candidate in vain ends where
/// `select_toolchain` reports that none was found.
pub proof fn lemma_search_agrees_with_selection(
    states: Seq<ToolchainSearch>,
    probes: Seq<Option<String>>,
)
    requires
        states.len() >= 2,
        states[0].next() == 0,
        probes.len() == states[0].candidates().len(),
        forall|k: int|
            0 <= k < states.len() - 1 ==> #[trigger] observed(
                states[k],
                states[k + 1],
                probes[states[k].next()],
            ),
    ensures
        states[states.len() - 1].found() ==> selects(states[0].candidates(), probes)
            && states[states.len() - 1].next() == first_accepted(probes, 0),
        !states[states.len() - 1].found() && states[states.len() - 1].next()
            == states[0].candidates().len() ==> !selects(states[0].candidates(), probes),
{
    lemma_search_probes_in_order(states, probes);
    let n = states.len();
    let j = n - 2;
    assert(states[j].next() == j);
    assert(observed(states[j], states[j + 1], probes[states[j].next()]));
    assert(states[j + 1] == states[n - 1]);
    assert(states[j].candidates() == states[0].candidates());
    if !states[n - 1].found() && states[n - 1].next() == states[0].candidates().len() {
        assert(j == probes.len() - 1);
        assert forall|k: int| 0 <= k < probes.len() implies !accepts(#[trigger] probes[k]) by {
            if k == j {
                assert(!accepts(probes[states[j].next()]));
            }
        }
        lemma_first_accepted_from(probes, 0);
        if first_accepted(probes, 0) < probes.len() {
            assert(accepts(probes[first_accepted(probes, 0)]));
        }
    }
}

} // verus!
