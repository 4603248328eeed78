//! Timing one trial: the clock is read before the workload is invoked and
//! again once it has completed, and the trial's timing is the span between
//! the two readings.
//!
//! A reading is the time that a monotonic clock shows, as a [`Duration`]
//! since some fixed origin.

use crate::duration::Duration;
use vstd::prelude::*;

verus! {

/// The span from the reading `start` to the reading `end`, in nanoseconds:
/// empty where the second is not later than the first.
pub open spec fn elapsed_nanos(start: nat, end: nat) -> nat {
    if end >= start {
        (end - start) as nat
    } else {
        0
    }
}

/// A trial in progress, which remembers when it began.
#[derive(Debug)]
pub struct Timer {
    started: Duration,
}

impl Timer {
    /// The reading at which the trial began, in nanoseconds.
    pub closed spec fn started(self) -> nat {
        self.started@
    }

    /// Begins a trial at the reading `now`, taken immediately before the
    /// workload is invoked.
    pub fn start(now: Duration) -> (timer: Timer)
        ensures
            timer.started() == now@,
    {
        Timer { started: now }
    }

    /// Ends the trial at the reading `now`, taken immediately after the
    /// workload has completed with `outcome`. A workload that failed passes
    /// its failure on and leaves no timing.
    pub fn stop<E>(self, now: Duration, outcome: Result<(), E>) -> (trial: Result<Duration, E>)
        ensures
            match outcome {
                Ok(_) => trial matches Ok(elapsed) && elapsed.wf() && elapsed@ == elapsed_nanos(
                    self.started(),
                    now@,
                ),
                Err(error) => trial == Err::<Duration, E>(error),
            },
    {
        match outcome {
            Ok(_) => Ok(now.saturating_sub(self.started)),
            Err(error) => Err(error),
        }
    }
}

} // verus!
