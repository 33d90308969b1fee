//! The pool: a fixed set of workers and the submitting end of their queue.
//!
//! The pool numbers its workers from zero, starts one thread for each through
//! the `spawn` function it is given, and keeps the handles. While it holds the
//! submitting end, `execute` puts jobs into the queue. `shutdown` gives the
//! submitting end up, which closes the queue, and hands every thread handle
//! out for joining, lowest number first. The queue itself is shared with the
//! workers, so the pool is lent it for each call.

use crate::queue::{JobQueue, QueueState};
use crate::worker::{Worker, WorkerView};
use vstd::prelude::*;

verus! {

/// What a pool is, mathematically: its workers, in the order in which they
/// were started, and whether the pool still holds the submitting end of the
/// queue.
pub struct PoolState<H> {
    pub workers: Seq<WorkerView<H>>,
    pub open: bool,
}

/// The error text of a submission to a pool that has given up the submitting
/// end.
pub open spec fn no_sender_message() -> Seq<char> {
    "Could not reference sender!"@
}

/// The error text of a submission that the queue refused.
pub open spec fn send_failed_message() -> Seq<char> {
    "Could not send job to worker: SendError { .. }"@
}

/// The thread handles that `workers` still have, each with the number of its
/// worker, in the order of `workers`.
pub open spec fn join_list<H>(workers: Seq<WorkerView<H>>) -> Seq<(usize, H)>
    decreases workers.len(),
{
    if workers.len() == 0 {
        Seq::empty()
    } else {
        let earlier = join_list(workers.drop_last());
        match workers.last().thread {
            Some(thread) => earlier.push((workers.last().id, thread)),
            None => earlier,
        }
    }
}

impl<H> PoolState<H> {
    /// How many workers the pool has.
    pub open spec fn size(self) -> nat {
        self.workers.len()
    }

    /// What holds of every pool from its creation on: it has at least one
    /// worker, the workers are numbered from zero in order, and as long as
    /// the pool holds the submitting end it holds the handle of every
    /// worker's thread.
    pub open spec fn valid(self) -> bool {
        &&& self.workers.len() > 0
        &&& forall|id: int| 0 <= id < self.workers.len() ==> (#[trigger] self.workers[id]).id == id
        &&& self.open ==> forall|id: int|
            0 <= id < self.workers.len() ==> (#[trigger] self.workers[id]).thread is Some
    }

    /// Why a submission that meets `queue` is rejected, if it is: the pool
    /// has given up the submitting end, or else the queue refuses.
    pub open spec fn rejection<J>(self, queue: QueueState<J>) -> Option<Seq<char>> {
        if !self.open {
            Some(no_sender_message())
        } else if !queue.accepts() {
            Some(send_failed_message())
        } else {
            None
        }
    }

    /// The state after shutdown: the same workers, none with a thread handle
    /// left, and the submitting end gone.
    pub open spec fn shutdown(self) -> Self {
        PoolState {
            workers: Seq::new(
                self.workers.len(),
                |id: int| WorkerView { id: self.workers[id].id, thread: None::<H> },
            ),
            open: false,
        }
    }
}

/// A fixed-size pool of workers.
pub struct ThreadPool<H> {
    workers: Vec<Worker<H>>,
    open: bool,
}

impl<H> View for ThreadPool<H> {
    type V = PoolState<H>;

    closed spec fn view(&self) -> PoolState<H> {
        PoolState {
            workers: Seq::new(self.workers@.len(), |id: int| self.workers@[id]@),
            open: self.open,
        }
    }
}

impl<H> ThreadPool<H> {
    /// Creates a pool of `size` workers, numbered from zero, and starts the
    /// thread of each by calling `spawn` with the worker's number, lowest
    /// first. When `new` returns, every worker has been started and the pool
    /// accepts jobs.
    ///
    /// A pool without workers could never run a job, so `size` must not be
    /// zero.
    pub fn new<F: Fn(usize) -> H>(size: usize, spawn: F) -> (pool: Self)
        requires
            size > 0,
            forall|id: usize| id < size ==> call_requires(spawn, (id,)),
        ensures
            pool@.valid(),
            pool@.open,
            pool@.size() == size,
            forall|id: usize|
                id < size ==> {
                    &&& (#[trigger] pool@.workers[id as int]).thread matches Some(thread)
                    &&& call_ensures(spawn, (id,), thread)
                },
    {
        let mut workers: Vec<Worker<H>> = Vec::new();
        let mut id: usize = 0;
        while id < size
            invariant
                id <= size,
                workers@.len() == id,
                forall|next: usize| next < size ==> call_requires(spawn, (next,)),
                forall|done: int|
                    0 <= done < id ==> {
                        &&& (#[trigger] workers@[done])@.id == done
                        &&& workers@[done]@.thread matches Some(thread)
                        &&& call_ensures(spawn, (done as usize,), thread)
                    },
            decreases size - id,
        {
            let thread = spawn(id);
            workers.push(Worker::new(id, thread));
            id += 1;
        }
        ThreadPool { workers, open: true }
    }

    /// The number of workers. It is fixed when the pool is created.
    pub fn size(&self) -> (size: usize)
        ensures
            size == self@.size(),
    {
        self.workers.len()
    }

    /// Whether the pool still holds the submitting end of the queue, that is,
    /// whether it has not been shut down.
    pub fn is_open(&self) -> (open: bool)
        ensures
            open == self@.open,
    {
        self.open
    }

    /// The pool's workers, in the order in which they were started.
    pub fn workers(&self) -> (workers: &Vec<Worker<H>>)
        ensures
            workers@.len() == self@.workers.len(),
            forall|id: int| 0 <= id < workers@.len() ==> (#[trigger] workers@[id])@ == self@.workers[id],
    {
        &self.workers
    }

    /// Submits `job`: puts it into `queue` behind the jobs already waiting,
    /// and returns at once, without waiting for the job to run.
    ///
    /// The submission is rejected, with the reason as text, when the pool has
    /// been shut down or the queue has been closed. A rejected job is dropped
    /// and the queue stays as it was, so the job never runs.
    pub fn execute<J>(&self, queue: &mut JobQueue<J>, job: J) -> (submitted: Result<(), String>)
        ensures
            match submitted {
                Ok(()) => {
                    &&& self@.rejection(old(queue)@) is None
                    &&& final(queue)@ == old(queue)@.send(job)
                },
                Err(message) => {
                    &&& self@.rejection(old(queue)@) == Some(message@)
                    &&& final(queue)@ == old(queue)@
                },
            },
    {
        if !self.open {
            return Err("Could not reference sender!".to_owned());
        }
        match queue.send(job) {
            Ok(()) => Ok(()),
            Err(_) => Err("Could not send job to worker: SendError { .. }".to_owned()),
        }
    }

    /// Shuts the pool down: gives up the submitting end, closes `queue`, and
    /// hands out the handle of every worker's thread that has not been handed
    /// out before, with the worker's number, lowest number first. The caller
    /// joins them in that order.
    ///
    /// Jobs already waiting stay in the queue: the workers still take them,
    /// and leave when the queue is empty. A second shutdown finds nothing to
    /// hand out.
    pub fn shutdown<J>(&mut self, queue: &mut JobQueue<J>) -> (joins: Vec<(usize, H)>)
        ensures
            final(self)@ == old(self)@.shutdown(),
            final(queue)@ == old(queue)@.close(),
            joins@ == join_list(old(self)@.workers),
    {
        self.open = false;
        queue.close();
        let mut joins: Vec<(usize, H)> = Vec::new();
        let count: usize = self.workers.len();
        let mut next: usize = 0;
        while next < count
            invariant
                next <= count,
                count == self.workers@.len(),
                count == old(self).workers@.len(),
                !self.open,
                forall|id: int|
                    0 <= id < next ==> (#[trigger] self.workers@[id])@ == (WorkerView::<H> {
                        id: old(self).workers@[id]@.id,
                        thread: None,
                    }),
                forall|id: int|
                    next <= id < count ==> (#[trigger] self.workers@[id])@ == old(
                        self,
                    ).workers@[id]@,
                joins@ == join_list(old(self)@.workers.take(next as int)),
            decreases count - next,
        {
            let worker = &mut self.workers[next];
            let id: usize = worker.id();
            let taken = worker.take_thread();
            proof {
                let before = old(self)@.workers.take(next as int);
                let now = old(self)@.workers.take(next + 1);
                assert(now.drop_last() =~= before);
                assert(now.last() == old(self).workers@[next as int]@);
            }
            if let Some(thread) = taken {
                joins.push((id, thread));
            }
            next += 1;
        }
        proof {
            assert(old(self)@.workers.take(count as int) =~= old(self)@.workers);
            assert(self@.workers =~= old(self)@.shutdown().workers);
        }
        joins
    }
}

/// Shutdown keeps a pool valid: the same workers under the same numbers, and
/// never again the submitting end.
pub proof fn lemma_shutdown_valid<H>(pool: PoolState<H>)
    requires
        pool.valid(),
    ensures
        pool.shutdown().valid(),
        pool.shutdown().size() == pool.size(),
        !pool.shutdown().open,
{
}

/// Shutting an open pool down hands out the thread of every worker, each
/// once, lowest number first: joining what was handed out leaves no thread
/// of the pool running.
pub proof fn lemma_open_pool_joins_all<H>(pool: PoolState<H>)
    requires
        pool.valid(),
        pool.open,
    ensures
        join_list(pool.workers).len() == pool.size(),
        forall|id: int|
            0 <= id < pool.size() ==> (#[trigger] join_list(pool.workers)[id]) == (
                id as usize,
                pool.workers[id].thread->0,
            ),
{
    lemma_join_list_of_live(pool.workers);
}

/// After shutdown no handle is left in the pool, so a second shutdown hands
/// out nothing and changes nothing.
pub proof fn lemma_shutdown_once<H>(pool: PoolState<H>)
    ensures
        join_list(pool.shutdown().workers) == Seq::<(usize, H)>::empty(),
        pool.shutdown().shutdown() == pool.shutdown(),
        forall|id: int|
            0 <= id < pool.size() ==> (#[trigger] pool.shutdown().workers[id]).thread is None,
{
    lemma_join_list_of_taken(pool.shutdown().workers);
    assert(pool.shutdown().shutdown().workers =~= pool.shutdown().workers);
}

/// Once a pool is shut down, every submission is rejected, whatever the
/// queue: the job is never queued, so it never runs.
pub proof fn lemma_shutdown_rejects<H, J>(pool: PoolState<H>, queue: QueueState<J>)
    ensures
        pool.shutdown().rejection(queue) == Some(no_sender_message()),
{
}

proof fn lemma_join_list_of_live<H>(workers: Seq<WorkerView<H>>)
    requires
        forall|id: int| 0 <= id < workers.len() ==> (#[trigger] workers[id]).thread is Some,
    ensures
        join_list(workers).len() == workers.len(),
        forall|id: int|
            0 <= id < workers.len() ==> (#[trigger] join_list(workers)[id]) == (
                workers[id].id,
                workers[id].thread->0,
            ),
    decreases workers.len(),
{
    if workers.len() > 0 {
        lemma_join_list_of_live(workers.drop_last());
    }
}

proof fn lemma_join_list_of_taken<H>(workers: Seq<WorkerView<H>>)
    requires
        forall|id: int| 0 <= id < workers.len() ==> (#[trigger] workers[id]).thread is None,
    ensures
        join_list(workers) == Seq::<(usize, H)>::empty(),
    decreases workers.len(),
{
    if workers.len() > 0 {
        lemma_join_list_of_taken(workers.drop_last());
    }
}

} // verus!
