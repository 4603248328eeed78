//! The benchmarked workload, seen from its driver: a fixed run of rounds,
//! each of which spawns one outer task and awaits it before the next begins.
//!
//! The driver owns a [`Workload`]. It spawns and awaits the outer task of
//! [`Workload::round`], reports how that went with
//! [`Workload::round_completed`], and does what the returned [`Step`] says.

use vstd::prelude::*;

verus! {

/// Index of the last round. Rounds are numbered from zero.
pub const LAST_ROUND: u32 = 500;

/// Number of rounds in one run of the workload.
pub const ROUNDS: u32 = 501;

/// How far one run of the workload has got.
pub enum Progress {
    /// Every round before `index` has completed, and round `index` is the
    /// one whose outer task is in flight.
    Running { index: nat },
    /// Every round has completed.
    Succeeded,
    /// A round has failed, and none was started after it.
    Failed,
}

/// A run that has not completed any round yet.
pub open spec fn initial() -> Progress {
    Progress::Running { index: 0 }
}

/// Progress once the round in flight has completed, successfully or not.
/// A run that is over stays as it is.
pub open spec fn advance(progress: Progress, success: bool) -> Progress {
    match progress {
        Progress::Running { index } => {
            if !success {
                Progress::Failed
            } else if index == LAST_ROUND {
                Progress::Succeeded
            } else {
                Progress::Running { index: index + 1 }
            }
        },
        Progress::Succeeded => Progress::Succeeded,
        Progress::Failed => Progress::Failed,
    }
}

/// Progress of a fresh run after its rounds have completed with `outcomes`,
/// in that order (`true` for success).
pub open spec fn progress_after(outcomes: Seq<bool>) -> Progress
    decreases outcomes.len(),
{
    if outcomes.len() == 0 {
        initial()
    } else {
        advance(progress_after(outcomes.drop_last()), outcomes.last())
    }
}

/// The first `n` of `outcomes` are all successes.
pub open spec fn succeed_up_to(outcomes: Seq<bool>, n: nat) -> bool {
    forall|i: int| 0 <= i < n && i < outcomes.len() ==> outcomes[i]
}

/// A run of the workload that is waiting for a round to complete.
///
/// Its view is [`Progress::Running`] with the index of that round.
#[derive(Debug)]
pub struct Workload {
    index: u32,
}

impl View for Workload {
    type V = Progress;

    closed spec fn view(&self) -> Progress {
        Progress::Running { index: self.index as nat }
    }
}

/// What the driver does once a round has completed.
#[derive(Debug)]
pub enum Step<E> {
    /// Go on with the round of the workload inside.
    Next(Workload),
    /// Stop: every round has completed.
    Done,
    /// Stop: the round failed with this error.
    Failed(E),
}

impl<E> View for Step<E> {
    type V = Progress;

    open spec fn view(&self) -> Progress {
        match *self {
            Step::Next(workload) => workload@,
            Step::Done => Progress::Succeeded,
            Step::Failed(_) => Progress::Failed,
        }
    }
}

impl Workload {
    /// The round in flight is one of the run's rounds.
    #[verifier::type_invariant]
    pub closed spec fn wf(self) -> bool {
        self.index <= LAST_ROUND
    }

    /// A fresh run, about to go through its first round.
    pub fn start() -> (workload: Workload)
        ensures
            workload.wf(),
            workload@ == initial(),
    {
        Workload { index: 0 }
    }

    /// Index of the round to spawn and await now.
    pub fn round(&self) -> (index: u32)
        ensures
            self@ == (Progress::Running { index: index as nat }),
            index <= LAST_ROUND,
    {
        proof {
            use_type_invariant(self);
        }
        self.index
    }

    /// Takes the outcome of the round in flight and says how to go on: with
    /// the next round, or not at all, because the round failed or was the
    /// last one.
    pub fn round_completed<E>(self, outcome: Result<(), E>) -> (step: Step<E>)
        ensures
            step@ == advance(self@, outcome is Ok),
            outcome matches Err(error) ==> step == Step::Failed(error),
            step matches Step::Next(workload) ==> workload.wf(),
    {
        proof {
            use_type_invariant(&self);
        }
        match outcome {
            Err(error) => Step::Failed(error),
            Ok(()) => {
                if self.index == LAST_ROUND {
                    Step::Done
                } else {
                    Step::Next(Workload { index: self.index + 1 })
                }
            },
        }
    }
}

/// Where a run stands after any number of completed rounds: failed, if one
/// of its rounds did; else succeeded, if all its rounds are through; else
/// in the round whose index is the number of rounds completed.
pub proof fn lemma_progress_after(outcomes: Seq<bool>)
    ensures
        progress_after(outcomes) == if !succeed_up_to(outcomes, ROUNDS as nat) {
            Progress::Failed
        } else if outcomes.len() >= ROUNDS {
            Progress::Succeeded
        } else {
            Progress::Running { index: outcomes.len() }
        },
    decreases outcomes.len(),
{
    if outcomes.len() > 0 {
        let before = outcomes.drop_last();
        lemma_progress_after(before);
        if succeed_up_to(before, ROUNDS as nat) {
            if outcomes.len() > ROUNDS || outcomes.last() {
                assert forall|i: int| 0 <= i < ROUNDS && i < outcomes.len() implies outcomes[i] by {
                    if i < before.len() {
                        assert(before[i] == outcomes[i]);
                    }
                }
            }
        } else {
            let i = choose|i: int| 0 <= i < ROUNDS && i < before.len() && !before[i];
            assert(!outcomes[i]);
        }
    }
}

/// Rounds run one after another, in the order of their indices: while no
/// round has failed and some are left, the round in flight is the one whose
/// index is the number of rounds completed before it.
pub proof fn lemma_rounds_in_order(outcomes: Seq<bool>)
    requires
        succeed_up_to(outcomes, outcomes.len()),
        outcomes.len() <= LAST_ROUND,
    ensures
        progress_after(outcomes) == (Progress::Running { index: outcomes.len() }),
{
    lemma_progress_after(outcomes);
}

/// A run succeeds exactly when its first [`ROUNDS`] rounds have completed
/// and each of them succeeded: never after fewer rounds, and never past a
/// failed one.
pub proof fn lemma_success_takes_every_round(outcomes: Seq<bool>)
    ensures
        progress_after(outcomes) == Progress::Succeeded <==> outcomes.len() >= ROUNDS
            && succeed_up_to(outcomes, ROUNDS as nat),
{
    lemma_progress_after(outcomes);
}

/// A run fails exactly when one of its first [`ROUNDS`] rounds has failed.
pub proof fn lemma_failure_takes_a_failed_round(outcomes: Seq<bool>)
    ensures
        progress_after(outcomes) == Progress::Failed <==> !succeed_up_to(outcomes, ROUNDS as nat),
{
    lemma_progress_after(outcomes);
}

} // verus!
