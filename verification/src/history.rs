//! What a queue, and a pool with its queue, have done over their whole life.
//!
//! A [`QueueState`] says what is waiting now. A [`History`] adds what the
//! queue has accepted and what it has delivered since it was created, so that
//! the delivery guarantee can be stated: every accepted job is delivered to
//! exactly one worker, in the order of acceptance, and a worker is told that
//! there is no more work only when nothing accepted is left undelivered.
//!
//! A [`PoolHistory`] follows a pool and its queue together, through
//! submissions, workers' turns and the shutdown, and states the same of the
//! pool: what `execute` accepted is what the workers are handed to run.

use crate::pool::PoolState;
use crate::queue::{Delivery, QueueState};
use vstd::prelude::*;

verus! {

/// One operation on a queue.
pub enum QueueOp<J> {
    /// A submitter sends a job.
    Send(J),
    /// A worker asks for work.
    Recv,
    /// The pool closes the queue.
    Close,
}

/// A queue together with the record of its past.
pub struct History<J> {
    /// The queue as it is now.
    pub queue: QueueState<J>,
    /// Every job a send has accepted, oldest first.
    pub accepted: Seq<J>,
    /// Every job a receive has delivered, oldest first.
    pub delivered: Seq<J>,
}

impl<J> History<J> {
    /// The history of a queue that has just been created.
    pub open spec fn start() -> Self {
        History { queue: QueueState::fresh(), accepted: Seq::empty(), delivered: Seq::empty() }
    }

    /// The history after one more operation.
    pub open spec fn step(self, op: QueueOp<J>) -> Self {
        match op {
            QueueOp::Send(job) => History {
                queue: self.queue.send(job),
                accepted: if self.queue.accepts() {
                    self.accepted.push(job)
                } else {
                    self.accepted
                },
                delivered: self.delivered,
            },
            QueueOp::Recv => History {
                queue: self.queue.recv(),
                accepted: self.accepted,
                delivered: match self.queue.delivery() {
                    Delivery::Job(job) => self.delivered.push(job),
                    _ => self.delivered,
                },
            },
            QueueOp::Close => History {
                queue: self.queue.close(),
                accepted: self.accepted,
                delivered: self.delivered,
            },
        }
    }

    /// The history of a new queue after the operations `ops`, in order.
    pub open spec fn replay(ops: Seq<QueueOp<J>>) -> Self
        decreases ops.len(),
    {
        if ops.len() == 0 {
            Self::start()
        } else {
            Self::replay(ops.drop_last()).step(ops.last())
        }
    }

    /// The history after `n` more receives.
    pub open spec fn drain(self, n: nat) -> Self
        decreases n,
    {
        if n == 0 {
            self
        } else {
            self.step(QueueOp::Recv).drain((n - 1) as nat)
        }
    }

    /// The accepted jobs are the delivered jobs followed by the waiting jobs:
    /// none is lost, none is duplicated, none overtakes another.
    pub open spec fn balanced(self) -> bool {
        self.accepted == self.delivered + self.queue.pending
    }
}

/// One operation keeps the books balanced.
pub proof fn lemma_step_balanced<J>(history: History<J>, op: QueueOp<J>)
    requires
        history.balanced(),
    ensures
        history.step(op).balanced(),
{
    let next = history.step(op);
    match op {
        QueueOp::Send(job) => {
            if history.queue.accepts() {
                assert(next.accepted =~= next.delivered + next.queue.pending);
            }
        },
        QueueOp::Recv => {
            if history.queue.pending.len() > 0 {
                assert(next.accepted =~= next.delivered + next.queue.pending);
            }
        },
        QueueOp::Close => {},
    }
}

/// Whatever is done to a queue, and in whatever order, each job it accepted
/// has either been delivered once or is waiting once, in the order of
/// acceptance.
pub proof fn lemma_replay_balanced<J>(ops: Seq<QueueOp<J>>)
    ensures
        History::replay(ops).balanced(),
    decreases ops.len(),
{
    if ops.len() == 0 {
        assert(History::<J>::start().accepted =~= History::<J>::start().delivered
            + History::<J>::start().queue.pending);
    } else {
        lemma_replay_balanced(ops.drop_last());
        lemma_step_balanced(History::replay(ops.drop_last()), ops.last());
    }
}

/// The past is never rewritten: one operation only ever adds to what was
/// accepted and to what was delivered, and a receive delivers at most one
/// job, the oldest one waiting.
pub proof fn lemma_step_extends<J>(history: History<J>, op: QueueOp<J>)
    ensures
        history.accepted.is_prefix_of(history.step(op).accepted),
        history.delivered.is_prefix_of(history.step(op).delivered),
        history.step(op).delivered.len() <= history.delivered.len() + 1,
        history.step(op).delivered.len() == history.delivered.len() + 1 ==> {
            &&& op is Recv
            &&& history.queue.pending.len() > 0
            &&& history.step(op).delivered.last() == history.queue.pending.first()
        },
{
}

/// A closed queue stays closed and accepts nothing more.
pub proof fn lemma_closed_is_final<J>(history: History<J>, op: QueueOp<J>)
    requires
        history.queue.closed,
    ensures
        history.step(op).queue.closed,
        history.step(op).accepted == history.accepted,
{
}

/// A worker is told that there is no more work only when every accepted job
/// has been delivered.
pub proof fn lemma_closed_signal_means_all_delivered<J>(ops: Seq<QueueOp<J>>)
    requires
        History::replay(ops).queue.delivery() is Closed,
    ensures
        History::replay(ops).delivered == History::replay(ops).accepted,
{
    lemma_replay_balanced(ops);
    let history = History::replay(ops);
    assert(history.accepted =~= history.delivered);
}

/// Once the queue is closed, receiving as often as jobs are waiting delivers
/// every accepted job, and the next receive reports that there is no more
/// work.
pub proof fn lemma_closed_queue_drains<J>(history: History<J>, n: nat)
    requires
        history.balanced(),
        history.queue.closed,
        n >= history.queue.pending.len(),
    ensures
        history.drain(n).delivered == history.accepted,
        history.drain(n).accepted == history.accepted,
        history.drain(n).queue.delivery() is Closed,
    decreases n,
{
    if n == 0 {
        assert(history.accepted =~= history.delivered);
    } else {
        let next = history.step(QueueOp::Recv);
        lemma_step_balanced(history, QueueOp::Recv);
        lemma_closed_is_final(history, QueueOp::Recv);
        lemma_closed_queue_drains(next, (n - 1) as nat);
    }
}

/// One thing that happens to a pool and its queue.
pub enum PoolEvent<J> {
    /// The owner submits a job with `execute`.
    Execute(J),
    /// A running worker takes a turn: it asks the queue for work.
    Turn,
    /// The owner shuts the pool down.
    Shutdown,
}

/// A pool and the history of its queue.
pub struct PoolHistory<H, J> {
    /// The pool as it is now.
    pub pool: PoolState<H>,
    /// Its queue, with what the queue accepted and delivered so far.
    pub queue: History<J>,
}

impl<H, J> PoolHistory<H, J> {
    /// A pool that has just been created, with its new queue.
    pub open spec fn start(pool: PoolState<H>) -> Self {
        PoolHistory { pool, queue: History::start() }
    }

    /// The pool and its queue after one more event. A submission reaches the
    /// queue unless the pool rejects it; a turn is a receive; the shutdown
    /// closes the queue.
    pub open spec fn step(self, event: PoolEvent<J>) -> Self {
        match event {
            PoolEvent::Execute(job) => if self.pool.rejection(self.queue.queue) is None {
                PoolHistory { pool: self.pool, queue: self.queue.step(QueueOp::Send(job)) }
            } else {
                self
            },
            PoolEvent::Turn => PoolHistory {
                pool: self.pool,
                queue: self.queue.step(QueueOp::Recv),
            },
            PoolEvent::Shutdown => PoolHistory {
                pool: self.pool.shutdown(),
                queue: self.queue.step(QueueOp::Close),
            },
        }
    }

    /// The pool `pool`, created open, and its queue after `events`, in order.
    pub open spec fn replay(pool: PoolState<H>, events: Seq<PoolEvent<J>>) -> Self
        decreases events.len(),
    {
        if events.len() == 0 {
            Self::start(pool)
        } else {
            Self::replay(pool, events.drop_last()).step(events.last())
        }
    }

    /// The pool and its queue after `n` more turns of workers.
    pub open spec fn turns(self, n: nat) -> Self
        decreases n,
    {
        if n == 0 {
            self
        } else {
            self.step(PoolEvent::Turn).turns((n - 1) as nat)
        }
    }

    /// What holds at every moment of a pool's life: the queue's books are
    /// balanced, and only the pool's shutdown closes the queue.
    pub open spec fn consistent(self) -> bool {
        &&& self.queue.balanced()
        &&& self.pool.open ==> !self.queue.queue.closed
    }
}

/// One event keeps a pool and its queue consistent.
pub proof fn lemma_pool_step_consistent<H, J>(history: PoolHistory<H, J>, event: PoolEvent<J>)
    requires
        history.consistent(),
    ensures
        history.step(event).consistent(),
{
    match event {
        PoolEvent::Execute(job) => {
            lemma_step_balanced(history.queue, QueueOp::Send(job));
        },
        PoolEvent::Turn => {
            lemma_step_balanced(history.queue, QueueOp::Recv);
        },
        PoolEvent::Shutdown => {
            lemma_step_balanced(history.queue, QueueOp::Close);
        },
    }
}

/// Whatever happens to a pool that was created open, and in whatever order:
/// each job that `execute` accepted has either been handed to a worker once
/// or is waiting once, in the order of submission; and until the shutdown
/// the queue is open.
pub proof fn lemma_pool_replay_consistent<H, J>(pool: PoolState<H>, events: Seq<PoolEvent<J>>)
    requires
        pool.open,
    ensures
        PoolHistory::replay(pool, events).consistent(),
    decreases events.len(),
{
    if events.len() == 0 {
        lemma_replay_balanced(Seq::<QueueOp<J>>::empty());
    } else {
        lemma_pool_replay_consistent(pool, events.drop_last());
        lemma_pool_step_consistent(PoolHistory::replay(pool, events.drop_last()), events.last());
    }
}

/// While the pool has not been shut down, every submission is accepted: the
/// job joins the accepted jobs, behind all earlier ones.
pub proof fn lemma_open_pool_accepts_every_job<H, J>(history: PoolHistory<H, J>, job: J)
    requires
        history.consistent(),
        history.pool.open,
    ensures
        history.pool.rejection(history.queue.queue) is None,
        history.step(PoolEvent::Execute(job)).queue.accepted == history.queue.accepted.push(job),
{
}

/// After the shutdown every submission is rejected and leaves no trace:
/// the job is never accepted, so no worker is ever handed it.
pub proof fn lemma_shut_pool_accepts_no_job<H, J>(history: PoolHistory<H, J>, job: J)
    ensures
        history.step(PoolEvent::Shutdown).pool.rejection(
            history.step(PoolEvent::Shutdown).queue.queue,
        ) is Some,
        history.step(PoolEvent::Shutdown).step(PoolEvent::Execute(job)) == history.step(
            PoolEvent::Shutdown,
        ),
{
}

/// After the shutdown the workers need only as many turns as jobs are
/// waiting to be handed every job that was ever accepted; the turn after
/// that tells a worker to leave.
pub proof fn lemma_shutdown_drains<H, J>(history: PoolHistory<H, J>, n: nat)
    requires
        history.consistent(),
        n >= history.queue.queue.pending.len(),
    ensures
        history.step(PoolEvent::Shutdown).turns(n).queue.delivered == history.queue.accepted,
        history.step(PoolEvent::Shutdown).turns(n).queue.queue.delivery() is Closed,
{
    let shut = history.step(PoolEvent::Shutdown);
    lemma_pool_step_consistent(history, PoolEvent::Shutdown);
    lemma_turns_are_receives(shut, n);
    lemma_closed_queue_drains(shut.queue, n);
}

proof fn lemma_turns_are_receives<H, J>(history: PoolHistory<H, J>, n: nat)
    ensures
        history.turns(n).queue == history.queue.drain(n),
        history.turns(n).pool == history.pool,
    decreases n,
{
    if n > 0 {
        lemma_turns_are_receives(history.step(PoolEvent::Turn), (n - 1) as nat);
    }
}

} // verus!
