//! How a compilation can fail.

use crate::ir::entities::AnyEntity;
use vstd::prelude::*;
use vstd::std_specs::convert::FromSpecImpl;
use vstd::string::*;

verus! {

/// What the verifier found wrong with a function: the entity at fault, and
/// the rule that it breaks.
#[derive(Clone, PartialEq, Eq, Debug)]
pub struct VerifierError {
    /// The entity at which the function is inconsistent.
    pub location: AnyEntity,
    /// What is wrong there.
    pub message: String,
}

impl VerifierError {
    /// The text of the finding: the name of the entity, a colon and a space,
    /// and the message.
    pub open spec fn text(self) -> Seq<char> {
        self.location.text() + seq![':', ' '] + self.message@
    }

    /// The text of the finding.
    pub fn to_string(&self) -> (s: String)
        ensures
            s@ == self.text(),
    {
        proof {
            reveal_strlit(": ");
            assert(": "@ =~= seq![':', ' ']);
        }
        let mut s = self.location.to_string();
        s.append(": ");
        s.append(self.message.as_str());
        s
    }
}

/// Why a function could not be compiled.
#[derive(Clone, PartialEq, Eq, Debug)]
pub enum CtonError {
    /// The function handed in is not valid input.
    InvalidInput,
    /// The verifier found the function inconsistent. Whoever produced the
    /// function, or the pass that last changed it, has made a mistake.
    Verifier(VerifierError),
    /// The function is beyond what the implementation can handle.
    ImplLimitExceeded,
    /// The code of the function is larger than the target allows.
    CodeTooLarge,
}

/// The result of a step of the compilation that produces nothing but its
/// effect on the function.
pub type CtonResult = Result<(), CtonError>;

impl From<VerifierError> for CtonError {
    fn from(e: VerifierError) -> (err: CtonError) {
        CtonError::Verifier(e)
    }
}

impl FromSpecImpl<VerifierError> for CtonError {
    open spec fn obeys_from_spec() -> bool {
        true
    }

    open spec fn from_spec(e: VerifierError) -> CtonError {
        CtonError::Verifier(e)
    }
}

} // verus!
