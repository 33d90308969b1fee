//! The job queue: an unbounded first-in, first-out transport with a closed
//! state.
//!
//! Submitters `send` jobs, workers `recv` them, and the pool `close`s the
//! queue once. A closed queue takes no new jobs, but still hands out the jobs
//! it holds; only when it is closed and empty does a worker learn that there
//! is no more work.

use std::collections::VecDeque;
use vstd::prelude::*;

verus! {

/// What a queue is, mathematically: the jobs waiting for a worker, oldest
/// first, and whether the queue has been closed.
pub struct QueueState<J> {
    pub pending: Seq<J>,
    pub closed: bool,
}

/// What a worker gets when it asks the queue for work.
pub enum Delivery<J> {
    /// The oldest waiting job, now owned by the worker.
    Job(J),
    /// Nothing is waiting, but the queue is open: more may come.
    Empty,
    /// The queue is closed and drained: there is no more work.
    Closed,
}

/// A job that a closed queue refused, handed back to the sender.
pub struct SendError<J>(pub J);

impl<J> QueueState<J> {
    /// The state of a new queue: open, with nothing waiting.
    pub open spec fn fresh() -> Self {
        QueueState { pending: Seq::empty(), closed: false }
    }

    /// Whether a job sent now would be accepted.
    pub open spec fn accepts(self) -> bool {
        !self.closed
    }

    /// The state after an attempt to send `job`: an open queue appends it, a
    /// closed queue stays as it is.
    pub open spec fn send(self, job: J) -> Self {
        if self.accepts() {
            QueueState { pending: self.pending.push(job), closed: self.closed }
        } else {
            self
        }
    }

    /// What a worker asking now would get.
    pub open spec fn delivery(self) -> Delivery<J> {
        if self.pending.len() > 0 {
            Delivery::Job(self.pending.first())
        } else if self.closed {
            Delivery::Closed
        } else {
            Delivery::Empty
        }
    }

    /// The state after a worker has asked: the oldest job, if there was one,
    /// has left the queue.
    pub open spec fn recv(self) -> Self {
        if self.pending.len() > 0 {
            QueueState { pending: self.pending.drop_first(), closed: self.closed }
        } else {
            self
        }
    }

    /// The state after closing: the same jobs wait, and no more are taken.
    pub open spec fn close(self) -> Self {
        QueueState { pending: self.pending, closed: true }
    }
}

/// The queue that connects submitters to workers.
pub struct JobQueue<J> {
    jobs: VecDeque<J>,
    closed: bool,
}

impl<J> View for JobQueue<J> {
    type V = QueueState<J>;

    closed spec fn view(&self) -> QueueState<J> {
        QueueState { pending: self.jobs@, closed: self.closed }
    }
}

impl<J> JobQueue<J> {
    /// Creates an open, empty queue.
    pub fn new() -> (queue: Self)
        ensures
            queue@ == QueueState::<J>::fresh(),
    {
        JobQueue { jobs: VecDeque::new(), closed: false }
    }

    /// Enqueues `job` behind every job already waiting. A closed queue
    /// refuses: it stays unchanged and the job comes back in the error.
    pub fn send(&mut self, job: J) -> (sent: Result<(), SendError<J>>)
        ensures
            final(self)@ == old(self)@.send(job),
            old(self)@.accepts() ==> sent == Ok::<(), SendError<J>>(()),
            !old(self)@.accepts() ==> sent == Err::<(), SendError<J>>(SendError(job)),
    {
        if self.closed {
            Err(SendError(job))
        } else {
            self.jobs.push_back(job);
            Ok(())
        }
    }

    /// Takes the oldest waiting job, if any. This never blocks: where a
    /// blocking receive would wait, it returns [`Delivery::Empty`] and the
    /// caller waits before asking again.
    pub fn recv(&mut self) -> (delivery: Delivery<J>)
        ensures
            delivery == old(self)@.delivery(),
            final(self)@ == old(self)@.recv(),
    {
        match self.jobs.pop_front() {
            Some(job) => Delivery::Job(job),
            None => {
                if self.closed {
                    Delivery::Closed
                } else {
                    Delivery::Empty
                }
            },
        }
    }

    /// Closes the queue. Closing a closed queue changes nothing.
    pub fn close(&mut self)
        ensures
            final(self)@ == old(self)@.close(),
    {
        self.closed = true;
    }

    /// Whether the queue has been closed.
    pub fn is_closed(&self) -> (closed: bool)
        ensures
            closed == self@.closed,
    {
        self.closed
    }

    /// The number of jobs waiting for a worker.
    pub fn len(&self) -> (len: usize)
        ensures
            len == self@.pending.len(),
    {
        self.jobs.len()
    }

    /// Whether no job is waiting.
    pub fn is_empty(&self) -> (empty: bool)
        ensures
            empty == (self@.pending.len() == 0),
    {
        self.jobs.len() == 0
    }
}

} // verus!
