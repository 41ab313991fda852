//! The compilation context: which pass runs next.
//!
//! Compiling a function takes a number of passes: the control flow graph and
//! the dominator tree are computed, the function is legalized for its
//! target, it is checked by the verifier, and registers are allocated. The
//! passes themselves are not part of this crate. What is here is the part
//! that decides: which passes an operation consists of, in which order they
//! run, whether the verifier runs at all, and what the operation reports
//! when a pass fails.
//!
//! A [`Context`] is asked for an operation and answers with a [`Step`]:
//! either a pass to run now, or the result of the operation. Whoever owns
//! the function runs the pass and hands its [`Outcome`] to
//! [`Context::resume`], which answers with the next step, until the
//! operation is done.
//!
//! The context keeps no record of whether the control flow graph and the
//! dominator tree are up to date with the function. Operations may be asked
//! for in any order; it is the caller who asks for [`Context::flowgraph`]
//! after the function has changed and before anything reads the results.
//! The verifier checks the three against each other, and that is the net
//! under a caller who forgot.

use crate::isa::TargetIsa;
use crate::result::{CtonError, CtonResult, VerifierError};
use vstd::prelude::*;

verus! {

/// A pass over the function that is being compiled.
#[derive(Clone, Copy, PartialEq, Eq, Hash, Debug, Structural)]
pub enum Pass {
    /// Compute the control flow graph from the function.
    Flowgraph,
    /// Compute the dominator tree from the function and its control flow
    /// graph.
    DominatorTree,
    /// Rewrite the function, and its control flow graph with it, until it
    /// holds only what the target can encode.
    Legalize,
    /// Check the function for consistency, and the control flow graph and
    /// the dominator tree against it.
    Verify,
    /// Allocate registers and stack slots to the values of the function.
    Regalloc,
}

/// What a pass reports when it has run.
#[derive(PartialEq, Eq, Debug)]
pub enum Outcome {
    /// The pass did its work.
    Completed,
    /// The verifier found the function inconsistent.
    Rejected(VerifierError),
    /// The pass gave up.
    Failed(CtonError),
}

/// What is to happen next in an operation.
#[derive(PartialEq, Eq, Debug)]
pub enum Step {
    /// Run this pass and hand its outcome to [`Context::resume`].
    Run(Pass),
    /// The operation is over, with this result.
    Done(CtonResult),
}

/// The passes of `verify`: the verifier.
pub open spec fn verify_script() -> Seq<Pass> {
    seq![Pass::Verify]
}

/// The passes of `verify_if`: those of `verify` where the verifier is
/// enabled, and none where it is not.
pub open spec fn verify_if_script(enable_verifier: bool) -> Seq<Pass> {
    if enable_verifier {
        verify_script()
    } else {
        Seq::empty()
    }
}

/// The passes of `legalize`: the legalizer, and then those of `verify_if`.
pub open spec fn legalize_script(enable_verifier: bool) -> Seq<Pass> {
    seq![Pass::Legalize] + verify_if_script(enable_verifier)
}

/// The passes of `flowgraph`: the control flow graph, and then the
/// dominator tree, which is computed from it.
pub open spec fn flowgraph_script() -> Seq<Pass> {
    seq![Pass::Flowgraph, Pass::DominatorTree]
}

/// The passes of `regalloc`: the register allocator.
pub open spec fn regalloc_script() -> Seq<Pass> {
    seq![Pass::Regalloc]
}

/// The step to take when `script` is what is left of an operation: to run
/// its first pass, or to end with success where nothing is left.
pub open spec fn first_step(script: Seq<Pass>) -> Step {
    if script.len() == 0 {
        Step::Done(Ok(()))
    } else {
        Step::Run(script[0])
    }
}

/// The error that an operation ends with when a pass reports `outcome`.
/// A finding of the verifier is passed on as it is, inside
/// [`CtonError::Verifier`].
pub open spec fn failure(outcome: Outcome) -> CtonError
    recommends
        outcome != Outcome::Completed,
{
    match outcome {
        Outcome::Completed => CtonError::InvalidInput,
        Outcome::Rejected(e) => CtonError::Verifier(e),
        Outcome::Failed(e) => e,
    }
}

/// What is left of an operation, and the step to take, after the first pass
/// of `script` has reported `outcome`.
///
/// A pass that completed makes way for the next one. Any failure ends the
/// operation at once: no later pass runs on a function that an earlier one
/// could not handle.
pub open spec fn after(script: Seq<Pass>, outcome: Outcome) -> (Seq<Pass>, Step) {
    if outcome == Outcome::Completed {
        let rest = if script.len() == 0 {
            script
        } else {
            script.skip(1)
        };
        (rest, first_step(rest))
    } else {
        (Seq::empty(), Step::Done(Err(failure(outcome))))
    }
}

/// The passes that run, and the result of the operation, when the passes
/// of `script` are run in turn and the one at place `i` reports
/// `outcomes[i]`.
pub open spec fn drive(script: Seq<Pass>, outcomes: Seq<Outcome>) -> (Seq<Pass>, CtonResult)
    recommends
        script.len() <= outcomes.len(),
    decreases script.len(),
{
    if script.len() == 0 {
        (Seq::empty(), Ok(()))
    } else {
        let (rest, step) = after(script, outcomes[0]);
        match step {
            Step::Done(result) => (seq![script[0]], result),
            Step::Run(_) => {
                let (passes, result) = drive(rest, outcomes.skip(1));
                (seq![script[0]] + passes, result)
            },
        }
    }
}

/// The persistent state of the compilation pipeline.
///
/// One context serves one function after the other; it is meant to be made
/// once per thread and kept. It holds what is left to do of the operation
/// that is under way, and nothing of the target: the same target
/// description may serve many contexts at once, so each operation takes it
/// as an argument.
///
/// Asking for an operation while another one awaits the outcome of a pass
/// abandons the other.
#[derive(Debug)]
pub struct Context {
    awaited: Option<Pass>,
    queued: Option<Pass>,
}

impl View for Context {
    type V = Seq<Pass>;

    /// The passes that are left of the operation under way. The first of
    /// them is the one whose outcome is awaited.
    closed spec fn view(&self) -> Seq<Pass> {
        match (self.awaited, self.queued) {
            (None, _) => Seq::empty(),
            (Some(first), None) => seq![first],
            (Some(first), Some(second)) => seq![first, second],
        }
    }
}

impl Context {
    /// A context with no operation under way.
    pub fn new() -> (ctx: Context)
        ensures
            ctx@ == Seq::<Pass>::empty(),
    {
        Context { awaited: None, queued: None }
    }

    /// The pass whose outcome is awaited, if an operation is under way.
    pub fn awaiting(&self) -> (pass: Option<Pass>)
        ensures
            pass == if self@.len() == 0 {
                None
            } else {
                Some(self@[0])
            },
    {
        self.awaited
    }

    /// Runs the verifier on the function, which also checks the control
    /// flow graph and the dominator tree against it.
    ///
    /// The target is not looked at.
    pub fn verify<'a, ISA: Into<Option<&'a TargetIsa>>>(&mut self, _isa: ISA) -> (step: Step)
        ensures
            final(self)@ == verify_script(),
            step == first_step(final(self)@),
    {
        self.awaited = Some(Pass::Verify);
        self.queued = None;
        assert(self@ =~= verify_script());
        Step::Run(Pass::Verify)
    }

    /// Runs the verifier if the settings of `isa` enable it, and succeeds
    /// without a look at the function if they do not.
    ///
    /// A pass that changes the function ends with this.
    pub fn verify_if(&mut self, isa: &TargetIsa) -> (step: Step)
        ensures
            final(self)@ == verify_if_script(isa.flags().enable_verifier()),
            step == first_step(final(self)@),
    {
        if isa.flags().enable_verifier() {
            self.verify(isa)
        } else {
            self.awaited = None;
            self.queued = None;
            Step::Done(Ok(()))
        }
    }

    /// Legalizes the function for `isa`, and then does what
    /// [`Context::verify_if`] does.
    pub fn legalize(&mut self, isa: &TargetIsa) -> (step: Step)
        ensures
            final(self)@ == legalize_script(isa.flags().enable_verifier()),
            step == first_step(final(self)@),
    {
        self.awaited = Some(Pass::Legalize);
        self.queued = if isa.flags().enable_verifier() {
            Some(Pass::Verify)
        } else {
            None
        };
        assert(self@ =~= legalize_script(isa.flags().enable_verifier()));
        Step::Run(Pass::Legalize)
    }

    /// Computes the control flow graph and the dominator tree anew.
    pub fn flowgraph(&mut self) -> (step: Step)
        ensures
            final(self)@ == flowgraph_script(),
            step == first_step(final(self)@),
    {
        self.awaited = Some(Pass::Flowgraph);
        self.queued = Some(Pass::DominatorTree);
        assert(self@ =~= flowgraph_script());
        Step::Run(Pass::Flowgraph)
    }

    /// Runs the register allocator.
    pub fn regalloc(&mut self, _isa: &TargetIsa) -> (step: Step)
        ensures
            final(self)@ == regalloc_script(),
            step == first_step(final(self)@),
    {
        self.awaited = Some(Pass::Regalloc);
        self.queued = None;
        assert(self@ =~= regalloc_script());
        Step::Run(Pass::Regalloc)
    }

    /// Takes the outcome of the pass that was awaited and says what is to
    /// happen next.
    pub fn resume(&mut self, outcome: Outcome) -> (step: Step)
        ensures
            (final(self)@, step) == after(old(self)@, outcome),
    {
        match outcome {
            Outcome::Completed => {
                self.awaited = match self.awaited {
                    Some(_) => self.queued,
                    None => None,
                };
                self.queued = None;
                assert(self@ =~= after(old(self)@, outcome).0);
                match self.awaited {
                    Some(pass) => Step::Run(pass),
                    None => Step::Done(Ok(())),
                }
            },
            Outcome::Rejected(e) => {
                self.awaited = None;
                self.queued = None;
                Step::Done(Err(CtonError::from(e)))
            },
            Outcome::Failed(e) => {
                self.awaited = None;
                self.queued = None;
                Step::Done(Err(e))
            },
        }
    }
}

/// With the verifier disabled `verify_if` asks for no pass and succeeds, and
/// with the verifier enabled it is `verify`.
pub proof fn lemma_verify_if(enable_verifier: bool)
    ensures
        enable_verifier ==> verify_if_script(enable_verifier) == verify_script(),
        !enable_verifier ==> first_step(verify_if_script(enable_verifier)) == Step::Done(Ok(())),
{
}

/// Legalizing is the legalizer followed by `verify_if`: once the legalizer
/// has completed, what is left is what `verify_if` starts with.
pub proof fn lemma_legalize_then_verify_if(enable_verifier: bool)
    ensures
        first_step(legalize_script(enable_verifier)) == Step::Run(Pass::Legalize),
        after(legalize_script(enable_verifier), Outcome::Completed) == (
            verify_if_script(enable_verifier),
            first_step(verify_if_script(enable_verifier)),
        ),
{
    assert(legalize_script(enable_verifier).skip(1) =~= verify_if_script(enable_verifier));
}

/// Every pass that completes leaves less to do, so every operation ends.
pub proof fn lemma_after_shrinks(script: Seq<Pass>, outcome: Outcome)
    ensures
        after(script, outcome).0.len() <= script.len(),
        script.len() > 0 ==> after(script, outcome).0.len() < script.len(),
        after(script, outcome).1 is Run ==> after(script, outcome).0.len() > 0,
        after(script, outcome).1 is Done ==> after(script, outcome).0.len() == 0,
{
}

/// Where every pass of an operation completes, all of them run, in order,
/// and the operation succeeds.
pub proof fn lemma_drive_completes(script: Seq<Pass>, outcomes: Seq<Outcome>)
    requires
        script.len() <= outcomes.len(),
        forall|i: int| 0 <= i < script.len() ==> outcomes[i] == Outcome::Completed,
    ensures
        drive(script, outcomes) == (script, Ok::<(), CtonError>(())),
    decreases script.len(),
{
    if script.len() > 0 {
        let rest = script.skip(1);
        let later = outcomes.skip(1);
        assert forall|i: int| 0 <= i < rest.len() implies later[i] == Outcome::Completed by {
            assert(later[i] == outcomes[i + 1]);
        }
        lemma_drive_completes(rest, later);
        if rest.len() == 0 {
            assert(script =~= seq![script[0]]);
        } else {
            assert(script =~= seq![script[0]] + rest);
        }
    } else {
        assert(script =~= Seq::<Pass>::empty());
    }
}

/// Where the pass at place `k` is the first that does not complete, the
/// passes up to it run, none after it does, and the operation fails with
/// what that pass reported.
pub proof fn lemma_drive_fails(script: Seq<Pass>, outcomes: Seq<Outcome>, k: int)
    requires
        script.len() <= outcomes.len(),
        0 <= k < script.len(),
        forall|i: int| 0 <= i < k ==> outcomes[i] == Outcome::Completed,
        outcomes[k] != Outcome::Completed,
    ensures
        drive(script, outcomes) == (script.take(k + 1), Err::<(), CtonError>(failure(outcomes[k]))),
    decreases script.len(),
{
    if k == 0 {
        assert(script.take(1) =~= seq![script[0]]);
    } else {
        let rest = script.skip(1);
        let later = outcomes.skip(1);
        assert forall|i: int| 0 <= i < k - 1 implies later[i] == Outcome::Completed by {
            assert(later[i] == outcomes[i + 1]);
        }
        assert(later[k - 1] == outcomes[k]);
        lemma_drive_fails(rest, later, k - 1);
        assert(script.take(k + 1) =~= seq![script[0]] + rest.take(k));
    }
}

} // verus!
