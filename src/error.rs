//! The fatal errors of an orchestration run.
use vstd::prelude::*;

use crate::paths::{concat, views};

verus! {

/// Why an orchestration run stops. Each variant carries the resource or
/// the text a person needs to put the problem right.
pub enum BuildError {
    /// The vendored source tree is absent and could not be fetched.
    SourceMissing { path: String },
    /// No candidate toolchain was found; `attempted` lists every candidate
    /// version, in the order in which they were tried.
    NoCompatibleToolchain { attempted: Vec<String> },
    /// The native build exited unsuccessfully; `output` is what it printed.
    NativeBuild { output: String },
    /// The bridge translation unit did not compile.
    BridgeCompile { diagnostic: String },
    /// A runtime archive that the link needs was not found in static form.
    LinkResourceMissing { resource: String },
}

/// Items separated by a comma and a space.
pub open spec fn comma_list(items: Seq<Seq<char>>) -> Seq<char>
    decreases items.len(),
{
    if items.len() == 0 {
        seq![]
    } else if items.len() == 1 {
        items[0]
    } else {
        comma_list(items.drop_last()) + ", "@ + items.last()
    }
}

/// The candidate versions, each as the package that was probed.
pub open spec fn tried_spec(attempted: Seq<Seq<char>>) -> Seq<char> {
    comma_list(attempted.map_values(|v: Seq<char>| "gcc@"@ + v))
}

/// The text shown for an error: what is missing, and how to supply it.
pub open spec fn message_spec(e: BuildError) -> Seq<char> {
    match e {
        BuildError::SourceMissing { path } => "AGC source not found at "@ + path@
            + "; fetch it with: git submodule update --init --recursive"@,
        BuildError::NoCompatibleToolchain { attempted } => {
            let hint = if attempted@.len() > 0 {
                "; install one with: brew install gcc@"@ + attempted@[0]@
            } else {
                seq![]
            };
            "no compatible GCC found (tried "@ + tried_spec(views(attempted@)) + ")"@ + hint
        },
        BuildError::NativeBuild { output } => "AGC build failed:\n"@ + output@,
        BuildError::BridgeCompile { diagnostic } => "bridge compilation failed:\n"@ + diagnostic@,
        BuildError::LinkResourceMissing { resource } => "runtime archive "@ + resource@
            + " not found in static form"@,
    }
}

/// The candidates as a comma-separated list of the probed packages.
fn tried_list(attempted: &Vec<String>) -> (r: String)
    ensures
        r@ == tried_spec(views(attempted@)),
{
    let ghost items = views(attempted@).map_values(|v: Seq<char>| "gcc@"@ + v);
    let mut r = String::new();
    let mut i: usize = 0;
    while i < attempted.len()
        invariant
            i <= attempted.len(),
            items.len() == attempted@.len(),
            forall|k: int| 0 <= k < items.len() ==> #[trigger] items[k] == "gcc@"@ + attempted@[k]@,
            r@ == comma_list(items.subrange(0, i as int)),
        decreases attempted.len() - i,
    {
        let item = concat("gcc@", attempted[i].as_str());
        assert(items.subrange(0, i + 1).drop_last() =~= items.subrange(0, i as int));
        if i == 0 {
            r = item;
        } else {
            let with_sep = concat(r.as_str(), ", ");
            r = concat(with_sep.as_str(), item.as_str());
        }
        i = i + 1;
    }
    assert(items.subrange(0, attempted.len() as int) =~= items);
    r
}

impl BuildError {
    /// The text shown for this error: what is missing, and how to supply it.
    pub fn message(&self) -> (r: String)
        ensures
            r@ == message_spec(*self),
    {
        match self {
            BuildError::SourceMissing { path } => {
                let a = concat("AGC source not found at ", path.as_str());
                concat(a.as_str(), "; fetch it with: git submodule update --init --recursive")
            },
            BuildError::NoCompatibleToolchain { attempted } => {
                let list = tried_list(attempted);
                let a = concat("no compatible GCC found (tried ", list.as_str());
                let b = concat(a.as_str(), ")");
                if attempted.len() > 0 {
                    let hint = concat("; install one with: brew install gcc@", attempted[0].as_str());
                    concat(b.as_str(), hint.as_str())
                } else {
                    proof {
                        assert(b@ + seq![] =~= b@);
                    }
                    b
                }
            },
            BuildError::NativeBuild { output } => concat("AGC build failed:\n", output.as_str()),
            BuildError::BridgeCompile { diagnostic } => concat(
                "bridge compilation failed:\n",
                diagnostic.as_str(),
            ),
            BuildError::LinkResourceMissing { resource } => {
                let a = concat("runtime archive ", resource.as_str());
                concat(a.as_str(), " not found in static form")
            },
        }
    }
}

} // verus!
