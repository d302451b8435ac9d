//! Child processes described as plain values, for the caller to run.
use vstd::prelude::*;

verus! {

/// One environment variable handed to a child process.
pub struct EnvVar {
    pub name: String,
    pub value: String,
}

/// Which output of a finished process its caller hands back.
#[derive(Clone, Copy, Debug, PartialEq, Eq, Structural)]
pub enum Capture {
    /// The standard output, without surrounding white space: an answer.
    TrimmedStdout,
    /// Everything it printed, unchanged: a report for a person.
    Everything,
}

/// A child process to run: nothing of the ambient environment reaches it
/// but the variables named in `inherit`, and those set in `env`.
pub struct Invocation {
    pub program: String,
    pub args: Vec<String>,
    /// The working directory.
    pub cwd: String,
    /// Variables set for the child.
    pub env: Vec<EnvVar>,
    /// Names of variables copied from the caller's environment.
    pub inherit: Vec<String>,
    /// The output to hand back when it has finished.
    pub capture: Capture,
}

/// The name and value of each variable.
pub open spec fn env_views(v: Seq<EnvVar>) -> Seq<(Seq<char>, Seq<char>)> {
    v.map_values(|e: EnvVar| (e.name@, e.value@))
}

/// A variable from two strings.
pub fn env_var(name: &str, value: &str) -> (r: EnvVar)
    ensures
        r.name@ == name@,
        r.value@ == value@,
{
    EnvVar { name: name.to_owned(), value: value.to_owned() }
}

} // verus!
