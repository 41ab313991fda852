//! What the runner knows of a test, and what it keeps while it runs the
//! tests of one function.

use crate::settings::Flags;
use vstd::prelude::*;

verus! {

/// A test that a command of the test file asked for, as far as the runner
/// reads it.
#[derive(Clone, PartialEq, Eq, Debug)]
pub struct SubTest {
    name: String,
    needs_verifier: bool,
    is_mutating: bool,
    needs_isa: bool,
}

impl SubTest {
    /// The name of the test.
    pub closed spec fn spec_name(&self) -> Seq<char> {
        self.name@
    }

    /// Whether the function has to pass the verifier before the test runs.
    pub closed spec fn spec_needs_verifier(&self) -> bool {
        self.needs_verifier
    }

    /// Whether the test changes the function.
    pub closed spec fn spec_is_mutating(&self) -> bool {
        self.is_mutating
    }

    /// Whether the test can only run for a target.
    pub closed spec fn spec_needs_isa(&self) -> bool {
        self.needs_isa
    }

    /// A test called `name`.
    pub fn new(name: String, needs_verifier: bool, is_mutating: bool, needs_isa: bool) -> (test:
        SubTest)
        ensures
            test.spec_name() == name@,
            test.needs_verifier() == needs_verifier,
            test.is_mutating() == is_mutating,
            test.needs_isa() == needs_isa,
    {
        SubTest { name, needs_verifier, is_mutating, needs_isa }
    }

    /// The name of the test.
    pub fn name(&self) -> (name: &str)
        ensures
            name@ == self.spec_name(),
    {
        self.name.as_str()
    }

    /// Whether the function has to pass the verifier before the test runs.
    #[verifier::when_used_as_spec(spec_needs_verifier)]
    pub fn needs_verifier(&self) -> (b: bool)
        ensures
            b == self.needs_verifier(),
    {
        self.needs_verifier
    }

    /// Whether the test changes the function.
    #[verifier::when_used_as_spec(spec_is_mutating)]
    pub fn is_mutating(&self) -> (b: bool)
        ensures
            b == self.is_mutating(),
    {
        self.is_mutating
    }

    /// Whether the test can only run for a target.
    #[verifier::when_used_as_spec(spec_needs_isa)]
    pub fn needs_isa(&self) -> (b: bool)
        ensures
            b == self.needs_isa(),
    {
        self.needs_isa
    }
}

/// What the runner keeps while it runs the tests of one function.
#[derive(Clone, Copy, PartialEq, Eq, Debug, Structural)]
pub struct Context {
    /// Whether the function has passed the verifier.
    pub verified: bool,
    /// The settings that the test at hand runs with.
    pub flags: Flags,
    /// The target that the test at hand runs for, by its place in the list
    /// of targets of the test file.
    pub isa: Option<usize>,
}

impl Context {
    /// The context for a function that no test has run on yet.
    pub fn new(flags: Flags) -> (context: Context)
        ensures
            context == (Context { verified: false, flags, isa: None }),
    {
        Context { verified: false, flags, isa: None }
    }

    /// Notes that the function has passed the verifier, so that no later
    /// test on it asks for the verifier again.
    pub fn set_verified(&mut self)
        ensures
            *final(self) == (Context { verified: true, ..*old(self) }),
    {
        self.verified = true;
    }
}

} // verus!
