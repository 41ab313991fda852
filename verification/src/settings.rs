//! Settings shared by the passes of a compilation.

use vstd::prelude::*;

verus! {

/// The settings that the passes consult.
#[derive(Clone, Copy, PartialEq, Eq, Hash, Debug, Structural)]
pub struct Flags {
    /// Whether the verifier runs after the passes that change a function.
    pub enable_verifier: bool,
}

impl Flags {
    /// Whether the verifier runs after the passes that change a function.
    pub open spec fn spec_enable_verifier(&self) -> bool {
        self.enable_verifier
    }

    /// The settings with the verifier switched on or off.
    pub fn new(enable_verifier: bool) -> (flags: Flags)
        ensures
            flags == (Flags { enable_verifier }),
    {
        Flags { enable_verifier }
    }

    /// Whether the verifier runs after the passes that change a function.
    /// It costs time and catches many mistakes.
    #[verifier::when_used_as_spec(spec_enable_verifier)]
    pub fn enable_verifier(&self) -> (enabled: bool)
        ensures
            enabled == self.enable_verifier,
    {
        self.enable_verifier
    }
}

} // verus!
