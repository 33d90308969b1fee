//! Workers: the loop that each worker thread runs, and the record that the
//! pool keeps of it.
//!
//! The loop is a state machine. A running worker asks the queue for work; a
//! job makes it execute, and when the job is done it runs again; the closed
//! signal, or the loss of the queue, terminates it for good. The thread that
//! runs the loop performs each [`Action`] and reports back.

use crate::queue::{Delivery, JobQueue, QueueState};
use vstd::prelude::*;

verus! {

/// Where a worker is in its loop.
#[derive(Clone, Copy, PartialEq, Eq, Debug, Structural)]
pub enum WorkerState {
    /// Between jobs: about to ask the queue for work.
    Running,
    /// Busy with a job it took from the queue.
    Executing,
    /// Finished; the thread returns. No state follows this one.
    Terminated,
}

/// Why a worker terminated.
#[derive(Clone, Copy, PartialEq, Eq, Debug, Structural)]
pub enum ExitReason {
    /// The queue was closed and empty: the ordinary end of a worker.
    QueueClosed,
    /// The worker could not get access to the queue at all.
    QueueUnavailable,
}

/// What the thread running a worker does next.
pub enum Action<J> {
    /// Run this job to completion, then call [`WorkerState::finish`].
    Run(J),
    /// Wait until the queue changes, then ask again.
    Wait,
    /// Leave the loop.
    Exit(ExitReason),
}

impl WorkerState {
    /// The state a running worker is in after the queue answered with
    /// `delivery`.
    pub open spec fn after<J>(delivery: Delivery<J>) -> WorkerState {
        match delivery {
            Delivery::Job(_) => WorkerState::Executing,
            Delivery::Empty => WorkerState::Running,
            Delivery::Closed => WorkerState::Terminated,
        }
    }

    /// What a running worker does after the queue answered with `delivery`:
    /// it runs the very job it was handed, waits, or leaves.
    pub open spec fn action<J>(delivery: Delivery<J>) -> Action<J> {
        match delivery {
            Delivery::Job(job) => Action::Run(job),
            Delivery::Empty => Action::Wait,
            Delivery::Closed => Action::Exit(ExitReason::QueueClosed),
        }
    }

    /// The state of a worker whose thread has just started.
    pub fn new() -> (state: WorkerState)
        ensures
            state == WorkerState::Running,
    {
        WorkerState::Running
    }

    /// One turn of the loop, made while the worker has exclusive access to
    /// the queue: the worker asks for work and decides what to do. The access
    /// is needed for this call only, not for running the job.
    pub fn poll<J>(&mut self, queue: &mut JobQueue<J>) -> (action: Action<J>)
        requires
            *old(self) == WorkerState::Running,
        ensures
            final(queue)@ == old(queue)@.recv(),
            *final(self) == Self::after(old(queue)@.delivery()),
            action == Self::action(old(queue)@.delivery()),
    {
        match queue.recv() {
            Delivery::Job(job) => {
                *self = WorkerState::Executing;
                Action::Run(job)
            },
            Delivery::Empty => Action::Wait,
            Delivery::Closed => {
                *self = WorkerState::Terminated;
                Action::Exit(ExitReason::QueueClosed)
            },
        }
    }

    /// The turn of the loop in which access to the queue could not be had:
    /// the worker does not try again, it terminates.
    pub fn access_failed(&mut self) -> (reason: ExitReason)
        requires
            *old(self) == WorkerState::Running,
        ensures
            *final(self) == WorkerState::Terminated,
            reason == ExitReason::QueueUnavailable,
    {
        *self = WorkerState::Terminated;
        ExitReason::QueueUnavailable
    }

    /// The job that the worker was executing has run to completion.
    pub fn finish(&mut self)
        requires
            *old(self) == WorkerState::Executing,
        ensures
            *final(self) == WorkerState::Running,
    {
        *self = WorkerState::Running;
    }

    /// Whether the worker is between jobs.
    pub fn is_running(&self) -> (running: bool)
        ensures
            running == (*self == WorkerState::Running),
    {
        matches!(self, WorkerState::Running)
    }

    /// Whether the worker is busy with a job.
    pub fn is_executing(&self) -> (executing: bool)
        ensures
            executing == (*self == WorkerState::Executing),
    {
        matches!(self, WorkerState::Executing)
    }

    /// Whether the worker has left its loop.
    pub fn is_terminated(&self) -> (terminated: bool)
        ensures
            terminated == (*self == WorkerState::Terminated),
    {
        matches!(self, WorkerState::Terminated)
    }
}

/// What a worker record is, mathematically.
pub struct WorkerView<H> {
    /// The worker's number within its pool.
    pub id: usize,
    /// The handle of the worker's thread, until it is taken for joining.
    pub thread: Option<H>,
}

/// The pool's record of one worker: its number and the handle of its thread.
/// `H` is whatever the embedding program joins a thread by.
pub struct Worker<H> {
    id: usize,
    thread: Option<H>,
}

impl<H> View for Worker<H> {
    type V = WorkerView<H>;

    closed spec fn view(&self) -> WorkerView<H> {
        WorkerView { id: self.id, thread: self.thread }
    }
}

impl<H> Worker<H> {
    /// Records the worker numbered `id`, whose loop runs on `thread`.
    pub fn new(id: usize, thread: H) -> (worker: Self)
        ensures
            worker@ == (WorkerView { id, thread: Some(thread) }),
    {
        Worker { id, thread: Some(thread) }
    }

    /// The worker's number. It never changes.
    pub fn id(&self) -> (id: usize)
        ensures
            id == self@.id,
    {
        self.id
    }

    /// Whether the thread's handle is still here.
    pub fn is_joinable(&self) -> (joinable: bool)
        ensures
            joinable == self@.thread is Some,
    {
        self.thread.is_some()
    }

    /// Takes the thread's handle out, so that the thread can be joined. The
    /// handle is handed out once: afterwards there is nothing to take.
    pub fn take_thread(&mut self) -> (thread: Option<H>)
        ensures
            thread == old(self)@.thread,
            final(self)@ == (WorkerView::<H> { id: old(self)@.id, thread: None }),
    {
        self.thread.take()
    }
}

/// A worker runs exactly the job that the queue handed it: the oldest one
/// waiting.
pub proof fn lemma_runs_the_delivered_job<J>(queue: QueueState<J>)
    ensures
        WorkerState::action(queue.delivery()) is Run <==> queue.pending.len() > 0,
        WorkerState::action(queue.delivery()) matches Action::Run(job) ==> job
            == queue.pending.first(),
{
}

/// A worker that asks the queue terminates exactly when the queue is closed
/// and drained; then, and only then, it is told to leave.
pub proof fn lemma_leaves_when_drained<J>(queue: QueueState<J>)
    ensures
        WorkerState::after(queue.delivery()) == WorkerState::Terminated <==> queue.closed
            && queue.pending.len() == 0,
        WorkerState::action(queue.delivery()) is Exit <==> WorkerState::after(queue.delivery())
            == WorkerState::Terminated,
{
}

/// A closed queue keeps no worker waiting: each turn either takes a job off
/// the queue or ends the worker.
pub proof fn lemma_closed_queue_never_waits<J>(queue: QueueState<J>)
    requires
        queue.closed,
    ensures
        !(WorkerState::action(queue.delivery()) is Wait),
        WorkerState::action(queue.delivery()) is Run ==> queue.recv().pending.len() + 1
            == queue.pending.len(),
{
}

} // verus!
