//! Carrying out a planned sequence of steps one at a time, and what a failed
//! step does to the rest of the sequence.
//!
//! The caller asks for the next step, performs it on the hardware and hands
//! back how it went; the run decides whether to go on and what the sequence
//! as a whole returns.

use vstd::prelude::*;
use crate::driver::{Error, Step};

verus! {

/// What a run does when one of its steps fails.
#[derive(Debug, Clone, Copy, PartialEq, Eq, Structural)]
pub enum OnFailure {
    /// Perform no further step; the run fails with that step's error (the
    /// power-up sequence and the reset pulse).
    Stop,
    /// Go on with the remaining steps; the run succeeds whatever fails (the
    /// acknowledgement of a device reset).
    Continue,
}

/// Where a run stands after the performed steps went as `oks` says (one
/// entry per outcome handed back, extra ones unused): how many steps were
/// performed, and whether the run has failed.
pub open spec fn run_after(len: nat, on_failure: OnFailure, oks: Seq<bool>) -> (nat, bool)
    decreases oks.len(),
{
    if oks.len() == 0 {
        (0, false)
    } else {
        let (n, failed) = run_after(len, on_failure, oks.drop_last());
        if !failed && n < len {
            (n + 1, on_failure == OnFailure::Stop && !oks.last())
        } else {
            (n, failed)
        }
    }
}

/// The smaller of two numbers.
pub open spec fn min_nat(a: nat, b: nat) -> nat {
    if a <= b {
        a
    } else {
        b
    }
}

/// A planned sequence of steps being carried out.
pub struct StepRun<E> {
    steps: Vec<Step>,
    next: usize,
    on_failure: OnFailure,
    failure: Option<Error<E>>,
}

impl<E> StepRun<E> {
    #[verifier::type_invariant]
    spec fn next_in_range(self) -> bool {
        self.next <= self.steps.len()
    }

    /// The planned steps.
    pub closed spec fn steps_of(&self) -> Seq<Step> {
        self.steps@
    }

    /// How many steps were performed so far.
    pub closed spec fn performed_of(&self) -> nat {
        self.next as nat
    }

    /// What the run does on a failed step.
    pub closed spec fn on_failure_of(&self) -> OnFailure {
        self.on_failure
    }

    /// The error the run has failed with, if it has.
    pub closed spec fn failure_of(&self) -> Option<Error<E>> {
        self.failure
    }

    /// Whether a step is still to be performed.
    pub open spec fn active(&self) -> bool {
        self.failure_of() is None && self.performed_of() < self.steps_of().len()
    }

    /// A run of `steps`, none performed yet.
    pub fn new(steps: Vec<Step>, on_failure: OnFailure) -> (r: Self)
        ensures
            r.steps_of() == steps@,
            r.performed_of() == 0,
            r.on_failure_of() == on_failure,
            r.failure_of() is None,
    {
        StepRun { steps, next: 0, on_failure, failure: None }
    }

    /// The step to perform next, or `None` once the run is over: all steps
    /// performed, or one failed under [`OnFailure::Stop`].
    pub fn next_step(&self) -> (r: Option<Step>)
        ensures
            r == (if self.active() {
                Some(self.steps_of()[self.performed_of() as int])
            } else {
                None
            }),
    {
        proof {
            use_type_invariant(self);
        }
        if self.failure.is_none() && self.next < self.steps.len() {
            Some(self.steps[self.next])
        } else {
            None
        }
    }

    /// Hands back how the step given by [`Self::next_step`] went.
    pub fn record(&mut self, outcome: Result<(), Error<E>>)
        requires
            old(self).active(),
        ensures
            final(self).steps_of() == old(self).steps_of(),
            final(self).on_failure_of() == old(self).on_failure_of(),
            final(self).performed_of() == old(self).performed_of() + 1,
            final(self).failure_of() == (match outcome {
                Err(e) => if old(self).on_failure_of() == OnFailure::Stop {
                    Some(e)
                } else {
                    None
                },
                Ok(_) => None,
            }),
    {
        proof {
            use_type_invariant(&*self);
        }
        self.next = self.next + 1;
        if let Err(e) = outcome {
            if self.on_failure == OnFailure::Stop {
                self.failure = Some(e);
            }
        }
    }

    /// What the run as a whole returns: the error it failed with, else
    /// success.
    pub fn finish(self) -> (r: Result<(), Error<E>>)
        ensures
            r == (match self.failure_of() {
                Some(e) => Err(e),
                None => Ok(()),
            }),
    {
        match self.failure {
            Some(e) => Err(e),
            None => Ok(()),
        }
    }
}

/// One more outcome: while the run is still going, the next step counts as
/// performed and the run fails if that step failed under
/// [`OnFailure::Stop`]; once over, the run stays as it is.
pub proof fn lemma_run_after_push(len: nat, on_failure: OnFailure, oks: Seq<bool>, ok: bool)
    ensures
        ({
            let (n, failed) = run_after(len, on_failure, oks);
            run_after(len, on_failure, oks.push(ok)) == if !failed && n < len {
                (n + 1, on_failure == OnFailure::Stop && !ok)
            } else {
                (n, failed)
            }
        }),
{
    assert(oks.push(ok).drop_last() =~= oks);
}

/// A run that stops on failure performs steps in order up to the first
/// failed one and no further: it has failed exactly when one of the
/// performed steps failed; then the failed step is the last performed and
/// every earlier one succeeded; otherwise every step it was given an outcome
/// for succeeded, up to the whole sequence.
pub proof fn lemma_stop_run_ends_at_first_failure(len: nat, oks: Seq<bool>)
    ensures
        ({
            let (n, failed) = run_after(len, OnFailure::Stop, oks);
            &&& n <= min_nat(len, oks.len())
            &&& forall|j: int| 0 <= j < n - 1 ==> #[trigger] oks[j]
            &&& failed ==> n >= 1 && !oks[n - 1]
            &&& !failed ==> n == min_nat(len, oks.len()) && forall|j: int| 0 <= j < n ==> #[trigger] oks[j]
        }),
    decreases oks.len(),
{
    if oks.len() > 0 {
        let init = oks.drop_last();
        lemma_stop_run_ends_at_first_failure(len, init);
        assert forall|j: int| 0 <= j < init.len() implies init[j] == oks[j] by {}
    }
}

/// A run that continues on failure performs every step it is given an
/// outcome for, up to the whole sequence, and never fails.
pub proof fn lemma_continue_run_performs_every_step(len: nat, oks: Seq<bool>)
    ensures
        run_after(len, OnFailure::Continue, oks) == (min_nat(len, oks.len()), false),
    decreases oks.len(),
{
    if oks.len() > 0 {
        lemma_continue_run_performs_every_step(len, oks.drop_last());
    }
}

} // verus!
