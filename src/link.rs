//! The link plan: the ordered directives the final link step receives.
//!
//! A native archive built with a located toolchain refers to that
//! toolchain's runtime archives. Each runtime archive found in static form is
//! force-loaded; one that is absent falls back to its shared library where it
//! has one. The plan is laid out in sections, so that every force-loaded
//! archive comes before any shared library that could supply the same symbols.
use vstd::prelude::*;

use crate::command::{Capture, Invocation};
use crate::error::BuildError;
use crate::paths::{concat, join, joined};
use crate::platform::Platform;
use crate::toolchain::{runtime_dir_spec, ResolvedToolchain, Toolchain};

verus! {

/// One directive of the link plan.
pub enum LinkDirective {
    /// A directory where the linker looks for libraries.
    SearchPath(String),
    /// A static library, linked by name.
    StaticLib(String),
    /// A shared library, linked by name.
    DynamicLib(String),
    /// A static archive whose every member is linked, referenced or not.
    ForceLoadArchive(String),
    /// An argument handed to the linker unchanged.
    LinkerRawArg(String),
}

/// A link directive over character sequences.
pub enum Directive {
    SearchPath(Seq<char>),
    StaticLib(Seq<char>),
    DynamicLib(Seq<char>),
    ForceLoadArchive(Seq<char>),
    LinkerRawArg(Seq<char>),
}

impl View for LinkDirective {
    type V = Directive;

    open spec fn view(&self) -> Directive {
        match self {
            LinkDirective::SearchPath(s) => Directive::SearchPath(s@),
            LinkDirective::StaticLib(s) => Directive::StaticLib(s@),
            LinkDirective::DynamicLib(s) => Directive::DynamicLib(s@),
            LinkDirective::ForceLoadArchive(s) => Directive::ForceLoadArchive(s@),
            LinkDirective::LinkerRawArg(s) => Directive::LinkerRawArg(s@),
        }
    }
}

/// The directives of a plan, in order.
pub open spec fn directive_views(v: Seq<LinkDirective>) -> Seq<Directive> {
    v.map_values(|d: LinkDirective| d@)
}

/// The line that tells the surrounding build system about a directive.
pub open spec fn render_spec(d: Directive) -> Seq<char> {
    match d {
        Directive::SearchPath(s) => "cargo:rustc-link-search=native="@ + s,
        Directive::StaticLib(s) => "cargo:rustc-link-lib=static="@ + s,
        Directive::DynamicLib(s) => "cargo:rustc-link-lib=dylib="@ + s,
        Directive::ForceLoadArchive(s) => "cargo:rustc-link-arg=-Wl,-force_load,"@ + s,
        Directive::LinkerRawArg(s) => "cargo:rustc-link-arg="@ + s,
    }
}

impl LinkDirective {
    /// The line that tells the surrounding build system about this directive.
    pub fn render(&self) -> (r: String)
        ensures
            r@ == render_spec(self@),
    {
        match self {
            LinkDirective::SearchPath(s) => concat("cargo:rustc-link-search=native=", s.as_str()),
            LinkDirective::StaticLib(s) => concat("cargo:rustc-link-lib=static=", s.as_str()),
            LinkDirective::DynamicLib(s) => concat("cargo:rustc-link-lib=dylib=", s.as_str()),
            LinkDirective::ForceLoadArchive(s) => concat(
                "cargo:rustc-link-arg=-Wl,-force_load,",
                s.as_str(),
            ),
            LinkDirective::LinkerRawArg(s) => concat("cargo:rustc-link-arg=", s.as_str()),
        }
    }
}

/// What to do when a runtime archive is not found in static form.
#[derive(Clone, Copy, Debug, PartialEq, Eq, Structural)]
pub enum MissingArchivePolicy {
    /// Link its shared library instead, where it has one, and report it.
    FallBackToDynamic,
    /// Stop the run.
    RequireStatic,
}

/// What the filesystem and the toolchain report, for the link plan.
pub struct LinkFacts {
    /// The paths, among those asked about, that exist.
    pub existing: Vec<String>,
    /// Where the toolchain says its `libgcc.a` is, if it answered.
    pub libgcc_path: Option<String>,
    /// Where the toolchain says its `libgcc_eh.a` is, if it answered.
    pub gcc_eh_path: Option<String>,
}

/// Whether `p` is among the existing paths.
pub open spec fn present(existing: Seq<String>, p: Seq<char>) -> bool {
    exists|i: int| 0 <= i < existing.len() && (#[trigger] existing[i])@ == p
}

/// Tests whether `p` is among the existing paths.
pub fn is_present(existing: &Vec<String>, p: &String) -> (r: bool)
    ensures
        r == present(existing@, p@),
{
    let mut i: usize = 0;
    while i < existing.len()
        invariant
            i <= existing.len(),
            forall|k: int| 0 <= k < i ==> (#[trigger] existing@[k])@ != p@,
        decreases existing.len() - i,
    {
        if existing[i] == *p {
            return true;
        }
        i = i + 1;
    }
    false
}

/// The character sequence of an optional string.
pub open spec fn opt_view(o: Option<String>) -> Option<Seq<char>> {
    match o {
        Some(s) => Some(s@),
        None => None,
    }
}

/// A runtime archive of the located toolchain.
pub struct RuntimeArchive {
    /// The archive's file name, for reports.
    pub name: String,
    /// Its path, where it was found in static form.
    pub archive: Option<String>,
    /// The shared library that can stand in for it.
    pub fallback: Option<String>,
}

/// A runtime archive over character sequences.
pub struct ArchiveView {
    pub name: Seq<char>,
    pub archive: Option<Seq<char>>,
    pub fallback: Option<Seq<char>>,
}

impl View for RuntimeArchive {
    type V = ArchiveView;

    open spec fn view(&self) -> ArchiveView {
        ArchiveView {
            name: self.name@,
            archive: opt_view(self.archive),
            fallback: opt_view(self.fallback),
        }
    }
}

/// The views of a list of runtime archives.
pub open spec fn archive_views(v: Seq<RuntimeArchive>) -> Seq<ArchiveView> {
    v.map_values(|a: RuntimeArchive| a@)
}

/// A path reported by the toolchain that exists and is not the bare file
/// name, which is what the toolchain prints when it has no such file.
pub open spec fn found_spec(existing: Seq<String>, reported: Option<Seq<char>>, bare: Seq<char>) -> Option<
    Seq<char>,
> {
    match reported {
        Some(p) => if present(existing, p) && p != bare {
            Some(p)
        } else {
            None
        },
        None => None,
    }
}

/// A path in the toolchain's runtime directory, where it exists.
pub open spec fn found_in_dir_spec(existing: Seq<String>, p: Seq<char>) -> Option<Seq<char>> {
    if present(existing, p) {
        Some(p)
    } else {
        None
    }
}

/// The runtime archives of a located toolchain, in link order: `libgcc`,
/// `libstdc++` and `libatomic`, and `libgcc_eh` on 64-bit ARM.
pub open spec fn runtime_archives_spec(
    platform: Platform,
    t: ResolvedToolchain,
    facts: LinkFacts,
) -> Seq<ArchiveView> {
    let dir = runtime_dir_spec(t.prefix@, t.version@);
    let existing = facts.existing@;
    let base = seq![
        ArchiveView {
            name: "libgcc.a"@,
            archive: found_spec(existing, opt_view(facts.libgcc_path), "libgcc.a"@),
            fallback: None,
        },
        ArchiveView {
            name: "libstdc++.a"@,
            archive: found_in_dir_spec(existing, joined(dir, "libstdc++.a"@)),
            fallback: Some("stdc++"@),
        },
        ArchiveView {
            name: "libatomic.a"@,
            archive: found_in_dir_spec(existing, joined(dir, "libatomic.a"@)),
            fallback: Some("atomic"@),
        },
    ];
    if platform.aarch64 {
        base.push(
            ArchiveView {
                name: "libgcc_eh.a"@,
                archive: found_spec(existing, opt_view(facts.gcc_eh_path), "libgcc_eh.a"@),
                fallback: None,
            },
        )
    } else {
        base
    }
}

/// The runtime archives that apply: none with the default toolchain.
pub open spec fn archives_spec(platform: Platform, toolchain: Toolchain, facts: LinkFacts) -> Seq<
    ArchiveView,
> {
    match toolchain {
        Toolchain::SystemDefault => seq![],
        Toolchain::Alternate(t) => runtime_archives_spec(platform, t, facts),
    }
}

/// A reported path, kept where it exists and is not the bare name.
fn found(existing: &Vec<String>, reported: &Option<String>, bare: &str) -> (r: Option<String>)
    ensures
        opt_view(r) == found_spec(existing@, opt_view(*reported), bare@),
{
    match reported {
        Some(p) => {
            let bare_name = String::from_str(bare);
            if is_present(existing, p) && !(*p == bare_name) {
                Some(p.clone())
            } else {
                None
            }
        },
        None => None,
    }
}

/// A path, kept where it exists.
fn found_in_dir(existing: &Vec<String>, p: String) -> (r: Option<String>)
    ensures
        opt_view(r) == found_in_dir_spec(existing@, p@),
{
    if is_present(existing, &p) {
        Some(p)
    } else {
        None
    }
}

/// The runtime archives of a located toolchain, each with the path where it
/// was found, if it was.
pub fn runtime_archives(platform: Platform, t: &ResolvedToolchain, facts: &LinkFacts) -> (r: Vec<
    RuntimeArchive,
>)
    ensures
        archive_views(r@) == runtime_archives_spec(platform, *t, *facts),
{
    let dir = t.runtime_dir();
    let stdcxx = join(dir.as_str(), "libstdc++.a");
    let atomic = join(dir.as_str(), "libatomic.a");
    let mut r: Vec<RuntimeArchive> = Vec::new();
    r.push(
        RuntimeArchive {
            name: String::from_str("libgcc.a"),
            archive: found(&facts.existing, &facts.libgcc_path, "libgcc.a"),
            fallback: None,
        },
    );
    r.push(
        RuntimeArchive {
            name: String::from_str("libstdc++.a"),
            archive: found_in_dir(&facts.existing, stdcxx),
            fallback: Some(String::from_str("stdc++")),
        },
    );
    r.push(
        RuntimeArchive {
            name: String::from_str("libatomic.a"),
            archive: found_in_dir(&facts.existing, atomic),
            fallback: Some(String::from_str("atomic")),
        },
    );
    if platform.aarch64 {
        r.push(
            RuntimeArchive {
                name: String::from_str("libgcc_eh.a"),
                archive: found(&facts.existing, &facts.gcc_eh_path, "libgcc_eh.a"),
                fallback: None,
            },
        );
    }
    assert(archive_views(r@) =~= runtime_archives_spec(platform, *t, *facts));
    r
}

/// The toolchain's C compiler run with the one argument `arg`, in its
/// prefix, with only `PATH` from the environment.
pub open spec fn is_query(inv: Invocation, t: ResolvedToolchain, arg: Seq<char>) -> bool {
    &&& inv.program@ == crate::toolchain::tool_path(t.prefix@, "gcc"@, t.version@)
    &&& inv.args@.map_values(|a: String| a@) == seq![arg]
    &&& inv.cwd@ == t.prefix@
    &&& inv.env@.len() == 0
    &&& inv.inherit@.map_values(|a: String| a@) == seq!["PATH"@]
    &&& inv.capture == Capture::TrimmedStdout
}

/// The toolchain query for the path of its `libgcc.a`.
pub fn libgcc_query(t: &ResolvedToolchain) -> (r: Invocation)
    ensures
        is_query(r, *t, "-print-libgcc-file-name"@),
{
    query(t, "-print-libgcc-file-name")
}

/// The toolchain query for the path of its `libgcc_eh.a`.
pub fn gcc_eh_query(t: &ResolvedToolchain) -> (r: Invocation)
    ensures
        is_query(r, *t, "-print-file-name=libgcc_eh.a"@),
{
    query(t, "-print-file-name=libgcc_eh.a")
}

/// The C compiler of the toolchain run with one argument.
fn query(t: &ResolvedToolchain, arg: &str) -> (r: Invocation)
    ensures
        is_query(r, *t, arg@),
{
    let args = vec![arg.to_owned()];
    let inherit = vec![String::from_str("PATH")];
    assert(args@.map_values(|a: String| a@) =~= seq![arg@]);
    assert(inherit@.map_values(|a: String| a@) =~= seq!["PATH"@]);
    Invocation {
        program: t.c_compiler(),
        args,
        cwd: t.prefix.clone(),
        env: Vec::new(),
        inherit,
        capture: Capture::TrimmedStdout,
    }
}

/// The search paths of a located toolchain: its runtime directory, then its
/// prefix's library directory.
pub open spec fn toolchain_paths_spec(toolchain: Toolchain) -> Seq<Directive> {
    match toolchain {
        Toolchain::SystemDefault => seq![],
        Toolchain::Alternate(t) => seq![
            Directive::SearchPath(runtime_dir_spec(t.prefix@, t.version@)),
            Directive::SearchPath(joined(t.prefix@, "lib"@)),
        ],
    }
}

/// A force-load for each runtime archive found in static form, in order.
pub open spec fn force_loads_spec(archives: Seq<ArchiveView>) -> Seq<Directive>
    decreases archives.len(),
{
    if archives.len() == 0 {
        seq![]
    } else {
        let rest = force_loads_spec(archives.drop_last());
        match archives.last().archive {
            Some(p) => rest.push(Directive::ForceLoadArchive(p)),
            None => rest,
        }
    }
}

/// A shared library for each runtime archive not found in static form that
/// has one, in order.
pub open spec fn fallbacks_spec(archives: Seq<ArchiveView>) -> Seq<Directive>
    decreases archives.len(),
{
    if archives.len() == 0 {
        seq![]
    } else {
        let rest = fallbacks_spec(archives.drop_last());
        let a = archives.last();
        match (a.archive, a.fallback) {
            (None, Some(f)) => rest.push(Directive::DynamicLib(f)),
            _ => rest,
        }
    }
}

/// The names of the runtime archives not found in static form, in order.
pub open spec fn missing_spec(archives: Seq<ArchiveView>) -> Seq<Seq<char>>
    decreases archives.len(),
{
    if archives.len() == 0 {
        seq![]
    } else {
        let rest = missing_spec(archives.drop_last());
        if archives.last().archive is None {
            rest.push(archives.last().name)
        } else {
            rest
        }
    }
}

/// `{root}/3rd_party/zstd/lib`, where AGC keeps its bundled zstd.
pub open spec fn zstd_dir_spec(root: Seq<char>) -> Seq<char> {
    joined(joined(joined(root, "3rd_party"@), "zstd"@), "lib"@)
}

/// AGC's archive and the zstd it bundles, both linked statically; on macOS
/// also the usual package-manager library directories, and the bundled zstd
/// force-loaded where its archive exists.
pub open spec fn dependency_spec(platform: Platform, root: Seq<char>, existing: Seq<String>) -> Seq<
    Directive,
> {
    let zstd_dir = zstd_dir_spec(root);
    let zstd_archive = joined(zstd_dir, "libzstd.a"@);
    let base = seq![
        Directive::SearchPath(joined(root, "bin"@)),
        Directive::StaticLib("agc"@),
        Directive::SearchPath(zstd_dir),
        Directive::StaticLib("zstd"@),
    ];
    if platform.macos {
        let mac = base + seq![
            Directive::SearchPath("/opt/homebrew/lib"@),
            Directive::SearchPath("/usr/local/lib"@),
        ];
        if present(existing, zstd_archive) {
            mac.push(Directive::ForceLoadArchive(zstd_archive))
        } else {
            mac
        }
    } else {
        base
    }
}

/// The shared libraries linked last: the toolchain's shared runtime where a
/// toolchain was located, zlib and threads, and the C++ standard library
/// outside macOS.
pub open spec fn system_libs_spec(platform: Platform, toolchain: Toolchain) -> Seq<Directive> {
    let runtime = match toolchain {
        Toolchain::SystemDefault => seq![],
        Toolchain::Alternate(_) => seq![Directive::DynamicLib("gcc_s.1"@)],
    };
    let common = runtime + seq![Directive::DynamicLib("z"@), Directive::DynamicLib("pthread"@)];
    if platform.macos {
        common
    } else {
        common.push(Directive::DynamicLib("stdc++"@))
    }
}

/// The whole plan: toolchain search paths, runtime force-loads, AGC and its
/// bundled libraries, runtime fallbacks, system libraries.
pub open spec fn plan_spec(
    platform: Platform,
    root: Seq<char>,
    toolchain: Toolchain,
    facts: LinkFacts,
) -> Seq<Directive> {
    let archives = archives_spec(platform, toolchain, facts);
    toolchain_paths_spec(toolchain) + force_loads_spec(archives) + dependency_spec(
        platform,
        root,
        facts.existing@,
    ) + fallbacks_spec(archives) + system_libs_spec(platform, toolchain)
}

/// A synthesized plan, with the runtime archives that had to fall back.
pub struct LinkPlan {
    pub directives: Vec<LinkDirective>,
    /// Names of runtime archives not found in static form.
    pub missing: Vec<String>,
}

/// Appends a force-load for each runtime archive found in static form.
fn push_force_loads(out: &mut Vec<LinkDirective>, archives: &Vec<RuntimeArchive>)
    ensures
        directive_views(final(out)@) == directive_views(old(out)@) + force_loads_spec(
            archive_views(archives@),
        ),
{
    let ghost start = directive_views(out@);
    let mut i: usize = 0;
    while i < archives.len()
        invariant
            i <= archives.len(),
            directive_views(out@) == start + force_loads_spec(
                archive_views(archives@).subrange(0, i as int),
            ),
        decreases archives.len() - i,
    {
        let ghost prefix = archive_views(archives@).subrange(0, i as int);
        assert(archive_views(archives@).subrange(0, i + 1).drop_last() =~= prefix);
        assert(archive_views(archives@).subrange(0, i + 1).last() == archives@[i as int]@);
        let ghost before = directive_views(out@);
        match &archives[i].archive {
            Some(p) => {
                out.push(LinkDirective::ForceLoadArchive(p.clone()));
                assert(directive_views(out@) =~= before.push(Directive::ForceLoadArchive(p@)));
            },
            None => {},
        }
        assert(directive_views(out@) =~= start + force_loads_spec(
            archive_views(archives@).subrange(0, i + 1),
        ));
        i = i + 1;
    }
    assert(archive_views(archives@).subrange(0, archives.len() as int) =~= archive_views(
        archives@,
    ));
}

/// Appends a shared library for each runtime archive that falls back.
fn push_fallbacks(out: &mut Vec<LinkDirective>, archives: &Vec<RuntimeArchive>)
    ensures
        directive_views(final(out)@) == directive_views(old(out)@) + fallbacks_spec(
            archive_views(archives@),
        ),
{
    let ghost start = directive_views(out@);
    let mut i: usize = 0;
    while i < archives.len()
        invariant
            i <= archives.len(),
            directive_views(out@) == start + fallbacks_spec(
                archive_views(archives@).subrange(0, i as int),
            ),
        decreases archives.len() - i,
    {
        let ghost prefix = archive_views(archives@).subrange(0, i as int);
        assert(archive_views(archives@).subrange(0, i + 1).drop_last() =~= prefix);
        assert(archive_views(archives@).subrange(0, i + 1).last() == archives@[i as int]@);
        let ghost before = directive_views(out@);
        if archives[i].archive.is_none() {
            match &archives[i].fallback {
                Some(f) => {
                    out.push(LinkDirective::DynamicLib(f.clone()));
                    assert(directive_views(out@) =~= before.push(Directive::DynamicLib(f@)));
                },
                None => {},
            }
        }
        assert(directive_views(out@) =~= start + fallbacks_spec(
            archive_views(archives@).subrange(0, i + 1),
        ));
        i = i + 1;
    }
    assert(archive_views(archives@).subrange(0, archives.len() as int) =~= archive_views(
        archives@,
    ));
}

/// The names of the runtime archives not found in static form.
fn missing_names(archives: &Vec<RuntimeArchive>) -> (r: Vec<String>)
    ensures
        r@.map_values(|s: String| s@) == missing_spec(archive_views(archives@)),
{
    let mut r: Vec<String> = Vec::new();
    let mut i: usize = 0;
    while i < archives.len()
        invariant
            i <= archives.len(),
            r@.map_values(|s: String| s@) == missing_spec(
                archive_views(archives@).subrange(0, i as int),
            ),
        decreases archives.len() - i,
    {
        let ghost prefix = archive_views(archives@).subrange(0, i as int);
        assert(archive_views(archives@).subrange(0, i + 1).drop_last() =~= prefix);
        assert(archive_views(archives@).subrange(0, i + 1).last() == archives@[i as int]@);
        if archives[i].archive.is_none() {
            r.push(archives[i].name.clone());
            assert(r@.map_values(|s: String| s@) =~= missing_spec(prefix).push(archives@[i as int].name@));
        }
        assert(r@.map_values(|s: String| s@) =~= missing_spec(
            archive_views(archives@).subrange(0, i + 1),
        ));
        i = i + 1;
    }
    assert(archive_views(archives@).subrange(0, archives.len() as int) =~= archive_views(
        archives@,
    ));
    r
}

/// Appends the search paths of the toolchain.
fn push_toolchain_paths(out: &mut Vec<LinkDirective>, toolchain: &Toolchain)
    ensures
        directive_views(final(out)@) == directive_views(old(out)@) + toolchain_paths_spec(
            *toolchain,
        ),
{
    let ghost start = directive_views(out@);
    match toolchain {
        Toolchain::SystemDefault => {},
        Toolchain::Alternate(t) => {
            out.push(LinkDirective::SearchPath(t.runtime_dir()));
            out.push(LinkDirective::SearchPath(t.lib_dir()));
        },
    }
    assert(directive_views(out@) =~= start + toolchain_paths_spec(*toolchain));
}

/// Appends AGC's archive, its bundled zstd, and the macOS additions.
fn push_dependency(
    out: &mut Vec<LinkDirective>,
    platform: Platform,
    root: &str,
    existing: &Vec<String>,
)
    ensures
        directive_views(final(out)@) == directive_views(old(out)@) + dependency_spec(
            platform,
            root@,
            existing@,
        ),
{
    let ghost start = directive_views(out@);
    let third = join(root, "3rd_party");
    let zstd = join(third.as_str(), "zstd");
    let zstd_dir = join(zstd.as_str(), "lib");
    let zstd_archive = join(zstd_dir.as_str(), "libzstd.a");
    out.push(LinkDirective::SearchPath(join(root, "bin")));
    out.push(LinkDirective::StaticLib(String::from_str("agc")));
    out.push(LinkDirective::SearchPath(zstd_dir));
    out.push(LinkDirective::StaticLib(String::from_str("zstd")));
    if platform.macos {
        out.push(LinkDirective::SearchPath(String::from_str("/opt/homebrew/lib")));
        out.push(LinkDirective::SearchPath(String::from_str("/usr/local/lib")));
        if is_present(existing, &zstd_archive) {
            out.push(LinkDirective::ForceLoadArchive(zstd_archive));
        }
    }
    assert(directive_views(out@) =~= start + dependency_spec(platform, root@, existing@));
}

/// Appends the shared libraries that are linked last.
fn push_system_libs(out: &mut Vec<LinkDirective>, platform: Platform, toolchain: &Toolchain)
    ensures
        directive_views(final(out)@) == directive_views(old(out)@) + system_libs_spec(
            platform,
            *toolchain,
        ),
{
    let ghost start = directive_views(out@);
    match toolchain {
        Toolchain::SystemDefault => {},
        Toolchain::Alternate(_) => {
            out.push(LinkDirective::DynamicLib(String::from_str("gcc_s.1")));
        },
    }
    out.push(LinkDirective::DynamicLib(String::from_str("z")));
    out.push(LinkDirective::DynamicLib(String::from_str("pthread")));
    if !platform.macos {
        out.push(LinkDirective::DynamicLib(String::from_str("stdc++")));
    }
    assert(directive_views(out@) =~= start + system_libs_spec(platform, *toolchain));
}

/// Whether the policy stops the run: it asks for static archives and one
/// is missing.
pub open spec fn refuses(policy: MissingArchivePolicy, missing: Seq<Seq<char>>) -> bool {
    policy == MissingArchivePolicy::RequireStatic && missing.len() > 0
}

/// `r` is the link plan for a dependency rooted at `root`, or the refusal
/// of the policy naming the first missing runtime archive.
pub open spec fn synthesized(
    r: Result<LinkPlan, BuildError>,
    platform: Platform,
    root: Seq<char>,
    toolchain: Toolchain,
    facts: LinkFacts,
    policy: MissingArchivePolicy,
) -> bool {
    let missing = missing_spec(archives_spec(platform, toolchain, facts));
    if refuses(policy, missing) {
        r matches Err(BuildError::LinkResourceMissing { resource }) && resource@ == missing[0]
    } else {
        r matches Ok(plan) && directive_views(plan.directives@) == plan_spec(
            platform,
            root,
            toolchain,
            facts,
        ) && plan.missing@.map_values(|s: String| s@) == missing
    }
}

/// Synthesizes the link plan for a dependency rooted at `root`.
///
/// With a located toolchain its runtime archives are force-loaded where
/// they exist. One that is missing stops the run under
/// `RequireStatic`, naming the first such archive; otherwise it falls back
/// to its shared library and is listed in `missing`.
pub fn synthesize_link_plan(
    platform: Platform,
    root: &str,
    toolchain: &Toolchain,
    facts: &LinkFacts,
    policy: MissingArchivePolicy,
) -> (r: Result<LinkPlan, BuildError>)
    ensures
        synthesized(r, platform, root@, *toolchain, *facts, policy),
{
    let archives = match toolchain {
        Toolchain::SystemDefault => Vec::new(),
        Toolchain::Alternate(t) => runtime_archives(platform, t, facts),
    };
    assert(archive_views(archives@) =~= archives_spec(platform, *toolchain, *facts));
    let missing = missing_names(&archives);
    if policy == MissingArchivePolicy::RequireStatic && missing.len() > 0 {
        return Err(BuildError::LinkResourceMissing { resource: missing[0].clone() });
    }
    let mut out: Vec<LinkDirective> = Vec::new();
    assert(directive_views(out@) =~= seq![]);
    push_toolchain_paths(&mut out, toolchain);
    push_force_loads(&mut out, &archives);
    push_dependency(&mut out, platform, root, &facts.existing);
    push_fallbacks(&mut out, &archives);
    push_system_libs(&mut out, platform, toolchain);
    assert(directive_views(out@) =~= plan_spec(platform, root@, *toolchain, *facts));
    Ok(LinkPlan { directives: out, missing })
}

/// The lines for the surrounding build system, one per directive, in order.
pub fn render_plan(directives: &Vec<LinkDirective>) -> (r: Vec<String>)
    ensures
        r@.len() == directives@.len(),
        forall|i: int| 0 <= i < r@.len() ==> (#[trigger] r@[i])@ == render_spec(directives@[i]@),
{
    let mut r: Vec<String> = Vec::new();
    let mut i: usize = 0;
    while i < directives.len()
        invariant
            i <= directives.len(),
            r@.len() == i,
            forall|k: int| 0 <= k < i ==> (#[trigger] r@[k])@ == render_spec(directives@[k]@),
        decreases directives.len() - i,
    {
        r.push(directives[i].render());
        i = i + 1;
    }
    r
}

/// Every runtime archive that is listed with a path exists.
pub open spec fn archives_exist(archives: Seq<ArchiveView>, existing: Seq<String>) -> bool {
    forall|k: int|
        0 <= k < archives.len() ==> (#[trigger] archives[k].archive matches Some(p) ==> present(
            existing,
            p,
        ))
}

proof fn lemma_force_loads_shape(archives: Seq<ArchiveView>, existing: Seq<String>)
    requires
        archives_exist(archives, existing),
    ensures
        forall|k: int|
            0 <= k < force_loads_spec(archives).len() ==> (#[trigger] force_loads_spec(
                archives,
            )[k] matches Directive::ForceLoadArchive(p) && present(existing, p)),
    decreases archives.len(),
{
    if archives.len() > 0 {
        let rest = archives.drop_last();
        assert(archives_exist(rest, existing)) by {
            assert forall|k: int| 0 <= k < rest.len() implies (#[trigger] rest[k].archive matches Some(
                p,
            ) ==> present(existing, p)) by {
                assert(rest[k] == archives[k]);
            }
        }
        lemma_force_loads_shape(rest, existing);
        assert(archives.last() == archives[archives.len() - 1]);
    }
}

proof fn lemma_fallbacks_shape(archives: Seq<ArchiveView>)
    ensures
        forall|k: int|
            0 <= k < fallbacks_spec(archives).len() ==> (#[trigger] fallbacks_spec(
                archives,
            )[k] is DynamicLib),
    decreases archives.len(),
{
    if archives.len() > 0 {
        lemma_fallbacks_shape(archives.drop_last());
    }
}

proof fn lemma_fallback_listed(archives: Seq<ArchiveView>, m: int, f: Seq<char>)
    requires
        0 <= m < archives.len(),
        archives[m].archive is None,
        archives[m].fallback == Some(f),
    ensures
        fallbacks_spec(archives).contains(Directive::DynamicLib(f)),
    decreases archives.len(),
{
    let rest = archives.drop_last();
    if m == archives.len() - 1 {
        let out = fallbacks_spec(archives);
        assert(out[out.len() - 1] == Directive::DynamicLib(f));
    } else {
        assert(rest[m] == archives[m]);
        lemma_fallback_listed(rest, m, f);
        let k = choose|k: int|
            0 <= k < fallbacks_spec(rest).len() && fallbacks_spec(rest)[k] == Directive::DynamicLib(
                f,
            );
        assert(fallbacks_spec(archives)[k] == Directive::DynamicLib(f));
    }
}

proof fn lemma_archives_exist(platform: Platform, toolchain: Toolchain, facts: LinkFacts)
    ensures
        archives_exist(archives_spec(platform, toolchain, facts), facts.existing@),
{
}

/// Every force-loaded archive in a plan exists: a runtime archive that is
/// absent is never force-loaded.
pub proof fn lemma_force_loaded_archives_exist(
    platform: Platform,
    root: Seq<char>,
    toolchain: Toolchain,
    facts: LinkFacts,
    k: int,
)
    requires
        0 <= k < plan_spec(platform, root, toolchain, facts).len(),
        plan_spec(platform, root, toolchain, facts)[k] is ForceLoadArchive,
    ensures
        plan_spec(platform, root, toolchain, facts)[k] matches Directive::ForceLoadArchive(p)
            && present(facts.existing@, p),
{
    let archives = archives_spec(platform, toolchain, facts);
    let a = toolchain_paths_spec(toolchain);
    let b = force_loads_spec(archives);
    let c = dependency_spec(platform, root, facts.existing@);
    let d = fallbacks_spec(archives);
    let e = system_libs_spec(platform, toolchain);
    let plan = plan_spec(platform, root, toolchain, facts);
    lemma_archives_exist(platform, toolchain, facts);
    lemma_force_loads_shape(archives, facts.existing@);
    lemma_fallbacks_shape(archives);
    assert(plan == a + b + c + d + e);
    if k < a.len() {
        assert(plan[k] == a[k]);
    } else if k < a.len() + b.len() {
        assert(plan[k] == b[k - a.len()]);
    } else if k < a.len() + b.len() + c.len() {
        assert(plan[k] == c[k - a.len() - b.len()]);
    } else if k < a.len() + b.len() + c.len() + d.len() {
        assert(plan[k] == d[k - a.len() - b.len() - c.len()]);
    } else {
        assert(plan[k] == e[k - a.len() - b.len() - c.len() - d.len()]);
    }
}

/// In every plan, each force-loaded archive comes before each shared
/// library, so no shared runtime can supply a symbol first.
pub proof fn lemma_force_loads_precede_shared_libs(
    platform: Platform,
    root: Seq<char>,
    toolchain: Toolchain,
    facts: LinkFacts,
    i: int,
    j: int,
)
    requires
        0 <= i < plan_spec(platform, root, toolchain, facts).len(),
        0 <= j < plan_spec(platform, root, toolchain, facts).len(),
        plan_spec(platform, root, toolchain, facts)[i] is ForceLoadArchive,
        plan_spec(platform, root, toolchain, facts)[j] is DynamicLib,
    ensures
        i < j,
{
    let archives = archives_spec(platform, toolchain, facts);
    let a = toolchain_paths_spec(toolchain);
    let b = force_loads_spec(archives);
    let c = dependency_spec(platform, root, facts.existing@);
    let d = fallbacks_spec(archives);
    let e = system_libs_spec(platform, toolchain);
    let plan = plan_spec(platform, root, toolchain, facts);
    let front = a + b + c;
    let back = d + e;
    lemma_archives_exist(platform, toolchain, facts);
    lemma_force_loads_shape(archives, facts.existing@);
    lemma_fallbacks_shape(archives);
    assert(plan == front + back);
    assert forall|k: int| 0 <= k < back.len() implies #[trigger] back[k] is DynamicLib by {
        if k >= d.len() {
            assert(back[k] == e[k - d.len()]);
        }
    }
    assert forall|k: int| 0 <= k < front.len() implies !(#[trigger] front[k] is DynamicLib) by {
        if k < a.len() {
            assert(front[k] == a[k]);
        } else if k < a.len() + b.len() {
            assert(front[k] == b[k - a.len()]);
        } else {
            assert(front[k] == c[k - a.len() - b.len()]);
        }
    }
    if i >= front.len() {
        assert(plan[i] == back[i - front.len()]);
    }
    if j < front.len() {
        assert(plan[j] == front[j]);
    }
}

/// Where a located toolchain's `libstdc++.a` or `libatomic.a` does not
/// exist, the plan links the shared library of the same name and does not
/// force-load the archive.
pub proof fn lemma_absent_archive_falls_back(
    platform: Platform,
    root: Seq<char>,
    t: ResolvedToolchain,
    facts: LinkFacts,
)
    ensures
        ({
            let plan = plan_spec(platform, root, Toolchain::Alternate(t), facts);
            let dir = runtime_dir_spec(t.prefix@, t.version@);
            let stdcxx = joined(dir, "libstdc++.a"@);
            let atomic = joined(dir, "libatomic.a"@);
            &&& !present(facts.existing@, stdcxx) ==> plan.contains(Directive::DynamicLib("stdc++"@))
                && !plan.contains(Directive::ForceLoadArchive(stdcxx))
            &&& !present(facts.existing@, atomic) ==> plan.contains(Directive::DynamicLib("atomic"@))
                && !plan.contains(Directive::ForceLoadArchive(atomic))
        }),
{
    let toolchain = Toolchain::Alternate(t);
    let archives = archives_spec(platform, toolchain, facts);
    let a = toolchain_paths_spec(toolchain);
    let b = force_loads_spec(archives);
    let c = dependency_spec(platform, root, facts.existing@);
    let d = fallbacks_spec(archives);
    let e = system_libs_spec(platform, toolchain);
    let plan = plan_spec(platform, root, toolchain, facts);
    assert(plan == a + b + c + d + e);
    let dir = runtime_dir_spec(t.prefix@, t.version@);
    let stdcxx = joined(dir, "libstdc++.a"@);
    let atomic = joined(dir, "libatomic.a"@);
    assert forall|p: Seq<char>| !present(facts.existing@, p) implies !plan.contains(
        Directive::ForceLoadArchive(p),
    ) by {
        if plan.contains(Directive::ForceLoadArchive(p)) {
            let k = choose|k: int| 0 <= k < plan.len() && plan[k] == Directive::ForceLoadArchive(p);
            lemma_force_loaded_archives_exist(platform, root, toolchain, facts, k);
        }
    }
    let start = a.len() + b.len() + c.len();
    if !present(facts.existing@, stdcxx) {
        lemma_fallback_listed(archives, 1, "stdc++"@);
        let k = choose|k: int| 0 <= k < d.len() && d[k] == Directive::DynamicLib("stdc++"@);
        assert(plan[start + k] == d[k]);
    }
    if !present(facts.existing@, atomic) {
        lemma_fallback_listed(archives, 2, "atomic"@);
        let k = choose|k: int| 0 <= k < d.len() && d[k] == Directive::DynamicLib("atomic"@);
        assert(plan[start + k] == d[k]);
    }
}

/// The lines that make the surrounding build system plan again when the
/// override directory or the bridge's sources change.
pub fn rerun_triggers() -> (r: Vec<String>)
    ensures
        r@.map_values(|s: String| s@) == seq![
            "cargo:rerun-if-env-changed=AGC_DIR"@,
            "cargo:rerun-if-changed=app/agc_file.rs"@,
            "cargo:rerun-if-changed=src/agc_bridge.cpp"@,
            "cargo:rerun-if-changed=src/agc_bridge.h"@,
        ],
{
    let r = vec![
        String::from_str("cargo:rerun-if-env-changed=AGC_DIR"),
        String::from_str("cargo:rerun-if-changed=app/agc_file.rs"),
        String::from_str("cargo:rerun-if-changed=src/agc_bridge.cpp"),
        String::from_str("cargo:rerun-if-changed=src/agc_bridge.h"),
    ];
    assert(r@.map_values(|s: String| s@) =~= seq![
        "cargo:rerun-if-env-changed=AGC_DIR"@,
        "cargo:rerun-if-changed=app/agc_file.rs"@,
        "cargo:rerun-if-changed=src/agc_bridge.cpp"@,
        "cargo:rerun-if-changed=src/agc_bridge.h"@,
    ]);
    r
}

/// The paths whose existence the link plan depends on: the archives the
/// toolchain reported, its `libstdc++.a` and `libatomic.a`, and the bundled
/// zstd archive.
pub open spec fn paths_to_check_spec(
    root: Seq<char>,
    toolchain: Toolchain,
    libgcc_path: Option<Seq<char>>,
    gcc_eh_path: Option<Seq<char>>,
) -> Seq<Seq<char>> {
    let reported = match libgcc_path {
        Some(p) => seq![p],
        None => seq![],
    } + match gcc_eh_path {
        Some(p) => seq![p],
        None => seq![],
    };
    let runtime = match toolchain {
        Toolchain::SystemDefault => seq![],
        Toolchain::Alternate(t) => {
            let dir = runtime_dir_spec(t.prefix@, t.version@);
            seq![joined(dir, "libstdc++.a"@), joined(dir, "libatomic.a"@)]
        },
    };
    reported + runtime + seq![joined(zstd_dir_spec(root), "libzstd.a"@)]
}

/// The paths to test for existence before the link plan is synthesized.
pub fn paths_to_check(
    root: &str,
    toolchain: &Toolchain,
    libgcc_path: &Option<String>,
    gcc_eh_path: &Option<String>,
) -> (r: Vec<String>)
    ensures
        r@.map_values(|s: String| s@) == paths_to_check_spec(
            root@,
            *toolchain,
            opt_view(*libgcc_path),
            opt_view(*gcc_eh_path),
        ),
{
    let mut r: Vec<String> = Vec::new();
    match libgcc_path {
        Some(p) => r.push(p.clone()),
        None => {},
    }
    match gcc_eh_path {
        Some(p) => r.push(p.clone()),
        None => {},
    }
    match toolchain {
        Toolchain::SystemDefault => {},
        Toolchain::Alternate(t) => {
            let dir = t.runtime_dir();
            r.push(join(dir.as_str(), "libstdc++.a"));
            r.push(join(dir.as_str(), "libatomic.a"));
        },
    }
    let third = join(root, "3rd_party");
    let zstd = join(third.as_str(), "zstd");
    let zstd_dir = join(zstd.as_str(), "lib");
    r.push(join(zstd_dir.as_str(), "libzstd.a"));
    assert(r@.map_values(|s: String| s@) =~= paths_to_check_spec(
        root@,
        *toolchain,
        opt_view(*libgcc_path),
        opt_view(*gcc_eh_path),
    ));
    r
}

/// In every plan that `synthesize_link_plan` returns, each force-loaded
/// archive comes before each shared library.
pub proof fn lemma_emitted_force_loads_precede_shared_libs(
    plan: LinkPlan,
    platform: Platform,
    root: Seq<char>,
    toolchain: Toolchain,
    facts: LinkFacts,
    policy: MissingArchivePolicy,
    i: int,
    j: int,
)
    requires
        synthesized(Ok(plan), platform, root, toolchain, facts, policy),
        0 <= i < plan.directives@.len(),
        0 <= j < plan.directives@.len(),
        plan.directives@[i]@ is ForceLoadArchive,
        plan.directives@[j]@ is DynamicLib,
    ensures
        i < j,
{
    let views = directive_views(plan.directives@);
    assert(views[i] == plan.directives@[i]@);
    assert(views[j] == plan.directives@[j]@);
    lemma_force_loads_precede_shared_libs(platform, root, toolchain, facts, i, j);
}

/// In every plan that `synthesize_link_plan` returns for a located
/// toolchain, a `libstdc++.a` or `libatomic.a` that does not exist is
/// replaced by the shared library of the same name and never force-loaded,
/// and every force-loaded archive exists.
pub proof fn lemma_emitted_plan_falls_back(
    plan: LinkPlan,
    platform: Platform,
    root: Seq<char>,
    t: ResolvedToolchain,
    facts: LinkFacts,
    policy: MissingArchivePolicy,
)
    requires
        synthesized(Ok(plan), platform, root, Toolchain::Alternate(t), facts, policy),
    ensures
        ({
            let emitted = directive_views(plan.directives@);
            let dir = runtime_dir_spec(t.prefix@, t.version@);
            let stdcxx = joined(dir, "libstdc++.a"@);
            let atomic = joined(dir, "libatomic.a"@);
            &&& !present(facts.existing@, stdcxx) ==> emitted.contains(
                Directive::DynamicLib("stdc++"@),
            ) && !emitted.contains(Directive::ForceLoadArchive(stdcxx))
            &&& !present(facts.existing@, atomic) ==> emitted.contains(
                Directive::DynamicLib("atomic"@),
            ) && !emitted.contains(Directive::ForceLoadArchive(atomic))
            &&& forall|k: int|
                0 <= k < emitted.len() && #[trigger] emitted[k] is ForceLoadArchive ==> (
                emitted[k] matches Directive::ForceLoadArchive(p) && present(facts.existing@, p))
        }),
{
    lemma_absent_archive_falls_back(platform, root, t, facts);
    let emitted = directive_views(plan.directives@);
    assert forall|k: int|
        0 <= k < emitted.len() && #[trigger] emitted[k] is ForceLoadArchive implies (
        emitted[k] matches Directive::ForceLoadArchive(p) && present(facts.existing@, p)) by {
        lemma_force_loaded_archives_exist(platform, root, Toolchain::Alternate(t), facts, k);
    }
}

} // verus!
