//! The tasks of one round: an outer task that spawns an inner task and
//! awaits it before it completes itself.
//!
//! The driver makes the [`OuterTask`] of the round and hands it to the
//! runtime. The code that runs as the outer task starts it, spawns the inner
//! task with [`AwaitingInner::inner_index`], awaits it, and completes with
//! [`AwaitingInner::inner_completed`]. The inner task runs [`inner_task`].
//! No two tasks share anything: each holds its own copy of the round's
//! index.

use crate::workload::{Progress, Workload, LAST_ROUND};
use vstd::prelude::*;

verus! {

/// What every task multiplies its round's index by.
pub const WORK_FACTOR: u32 = 1000;

/// The process id of every outer task, on a runtime that numbers its
/// processes. An inner task has [`AwaitingInner::inner_pid`].
pub const OUTER_PID: usize = 1;

/// The product that the tasks of round `index` compute.
pub open spec fn work_of(index: nat) -> nat {
    index * (WORK_FACTOR as nat)
}

/// The synchronous work of a task of round `index`: a product that is small
/// to compute and that the benchmark has no use for.
pub fn work(index: u32) -> (product: u64)
    ensures
        product == work_of(index as nat),
{
    index as u64 * 1000
}

/// The whole of an inner task: it does its work and completes with the
/// product.
pub fn inner_task(index: u32) -> (value: u64)
    ensures
        value == work_of(index as nat),
{
    work(index)
}

/// Where an outer task stands.
pub enum TaskState {
    /// Made for round `index`, not yet running.
    Created { index: nat },
    /// Its own work is done and its inner task is spawned and not yet
    /// through.
    AwaitingInner { index: nat },
    /// Through, with the value that its inner task completed with.
    Complete { index: nat, value: nat },
}

/// What can happen to an outer task.
pub enum TaskEvent {
    /// The runtime has started it.
    Started,
    /// Its inner task has completed with `value`.
    InnerCompleted { value: nat },
}

/// Where an outer task stands after `event`, or `None` where the event
/// cannot happen in `state`.
pub open spec fn task_step(state: TaskState, event: TaskEvent) -> Option<TaskState> {
    match (state, event) {
        (TaskState::Created { index }, TaskEvent::Started) => Some(
            TaskState::AwaitingInner { index },
        ),
        (TaskState::AwaitingInner { index }, TaskEvent::InnerCompleted { value }) => Some(
            TaskState::Complete { index, value },
        ),
        _ => None,
    }
}

/// Where the outer task of round `index` stands after `events`, in that
/// order, or `None` where they cannot happen in that order.
pub open spec fn task_after(index: nat, events: Seq<TaskEvent>) -> Option<TaskState>
    decreases events.len(),
{
    if events.len() == 0 {
        Some(TaskState::Created { index })
    } else {
        match task_after(index, events.drop_last()) {
            Some(state) => task_step(state, events.last()),
            None => None,
        }
    }
}

/// An outer task that has not started.
///
/// Its view is [`TaskState::Created`].
#[derive(Debug)]
pub struct OuterTask {
    index: u32,
}

impl View for OuterTask {
    type V = TaskState;

    open spec fn view(&self) -> TaskState {
        TaskState::Created { index: self.index() }
    }
}

/// An outer task that waits for its inner task.
///
/// Its view is [`TaskState::AwaitingInner`].
#[derive(Debug)]
pub struct AwaitingInner {
    index: u32,
    product: u64,
}

impl View for AwaitingInner {
    type V = TaskState;

    open spec fn view(&self) -> TaskState {
        TaskState::AwaitingInner { index: self.index() }
    }
}

impl OuterTask {
    /// The index of the task's round.
    pub closed spec fn index(self) -> nat {
        self.index as nat
    }

    /// The task belongs to one of the workload's rounds.
    #[verifier::type_invariant]
    pub closed spec fn wf(self) -> bool {
        self.index <= LAST_ROUND
    }

    /// The outer task of the round that `workload` is in. It holds its own
    /// copy of the round's index.
    pub fn for_round(workload: &Workload) -> (task: OuterTask)
        ensures
            task.wf(),
            workload@ == (Progress::Running { index: task.index() }),
    {
        OuterTask { index: workload.round() }
    }

    /// Starts the task: it does its own work, and is then due to spawn its
    /// inner task and await it.
    pub fn start(self) -> (pending: AwaitingInner)
        ensures
            pending.wf(),
            task_step(self@, TaskEvent::Started) == Some(pending@),
    {
        proof {
            use_type_invariant(&self);
        }
        AwaitingInner { index: self.index, product: work(self.index) }
    }
}

impl AwaitingInner {
    /// The index of the task's round.
    pub closed spec fn index(self) -> nat {
        self.index as nat
    }

    /// The task belongs to one of the workload's rounds, and holds the
    /// product of its own work.
    #[verifier::type_invariant]
    pub closed spec fn wf(self) -> bool {
        self.index <= LAST_ROUND && self.product == work_of(self.index as nat)
    }

    /// The copy of the round's index that the inner task takes with it.
    pub fn inner_index(&self) -> (index: u32)
        ensures
            index == self.index(),
            index <= LAST_ROUND,
    {
        proof {
            use_type_invariant(self);
        }
        self.index
    }

    /// The process id of the inner task, on a runtime that numbers its
    /// processes: the product of the outer task's own work.
    pub fn inner_pid(&self) -> (pid: usize)
        ensures
            pid == work_of(self.index()),
    {
        proof {
            use_type_invariant(self);
        }
        self.product as usize
    }

    /// Completes the outer task, with the value that its inner task
    /// completed with.
    pub fn inner_completed(self, value: u64) -> (result: u64)
        ensures
            result == value,
            task_step(self@, TaskEvent::InnerCompleted { value: value as nat }) == Some(
                TaskState::Complete { index: self.index(), value: result as nat },
            ),
    {
        value
    }
}

/// An outer task is complete only after it was started and its inner task
/// then completed, with nothing before, between or after, and the value it
/// holds is the one that its inner task completed with.
pub proof fn lemma_complete_only_after_inner(index: nat, events: Seq<TaskEvent>)
    requires
        task_after(index, events) is Some,
        task_after(index, events).unwrap() is Complete,
    ensures
        events.len() == 2,
        events[0] == TaskEvent::Started,
        events[1] is InnerCompleted,
        task_after(index, events) == Some(
            TaskState::Complete { index, value: events[1]->InnerCompleted_value },
        ),
{
    // The last event completed the task, so the task was awaiting its inner
    // task before it; the event before that one started it, so the task was
    // fresh before it; and no event leaves a task fresh.
    let started = events.drop_last();
    assert(task_after(index, started).unwrap() is AwaitingInner);
    let fresh = started.drop_last();
    assert(task_after(index, fresh).unwrap() is Created);
    if fresh.len() > 0 {
        let state = task_after(index, fresh.drop_last());
        assert(state is Some ==> !(task_step(state.unwrap(), fresh.last()) matches Some(
            TaskState::Created { .. },
        )));
    }
}

/// Started and then told of its inner task's completion, the outer task of
/// round `index` is complete.
pub proof fn lemma_start_then_inner_completes(index: nat, value: nat)
    ensures
        task_after(index, seq![TaskEvent::Started, TaskEvent::InnerCompleted { value }]) == Some(
            TaskState::Complete { index, value },
        ),
{
    let events = seq![TaskEvent::Started, TaskEvent::InnerCompleted { value }];
    let started = events.drop_last();
    assert(task_after(index, started.drop_last()) == Some(TaskState::Created { index }));
    assert(task_after(index, started) == Some(TaskState::AwaitingInner { index }));
}

} // verus!
