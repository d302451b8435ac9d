//! The host for which a build is planned.
use vstd::prelude::*;

verus! {

/// The facts about the target that change how the build is planned.
#[derive(Clone, Copy, Debug, PartialEq, Eq, Structural)]
pub struct Platform {
    /// The target is macOS, whose default compiler cannot build AGC.
    pub macos: bool,
    /// The target is 64-bit ARM.
    pub aarch64: bool,
}

impl Platform {
    /// Whether an alternate compiler toolchain must be located before the
    /// native build: only where the default compiler is known to be unfit.
    pub fn toolchain_required(&self) -> (r: bool)
        ensures
            r == self.macos,
    {
        self.macos
    }
}

} // verus!
