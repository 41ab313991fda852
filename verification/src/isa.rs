//! What the driver knows of the machine that it compiles for.

use crate::settings::Flags;
use vstd::prelude::*;

verus! {

/// The description of a target instruction set architecture, as far as the
/// driver reads it: a name for messages, and the settings it was made with.
///
/// A description does not change once made. One description serves any
/// number of compilation contexts, which is why a context holds none and
/// every operation takes it as an argument.
#[derive(Clone, PartialEq, Eq, Debug)]
pub struct TargetIsa {
    name: String,
    flags: Flags,
}

impl TargetIsa {
    /// The name of the architecture.
    pub closed spec fn spec_name(&self) -> Seq<char> {
        self.name@
    }

    /// The settings that the architecture was made with.
    pub closed spec fn spec_flags(&self) -> Flags {
        self.flags
    }

    /// The description of the architecture called `name`, made with `flags`.
    pub fn new(name: String, flags: Flags) -> (isa: TargetIsa)
        ensures
            isa.spec_name() == name@,
            isa.flags() == flags,
    {
        TargetIsa { name, flags }
    }

    /// The name of the architecture.
    pub fn name(&self) -> (name: &str)
        ensures
            name@ == self.spec_name(),
    {
        self.name.as_str()
    }

    /// The settings that the architecture was made with.
    #[verifier::when_used_as_spec(spec_flags)]
    pub fn flags(&self) -> (flags: Flags)
        ensures
            flags == self.flags(),
    {
        self.flags
    }
}

} // verus!
