//! The worker pool and its dispatch policy.
//!
//! A task goes to the first worker to which nothing has been sent since its
//! thread was started. Where every worker has been sent something, it goes to
//! the worker that has been sent the most, the first of them where several
//! are level.

use vstd::prelude::*;
use slab::Slab;
use crate::slab_spec::slot_bound;
use std::sync::mpsc::Sender;
use crate::runtime::channel::{is_offer_of, Queued, Refused};
use crate::runtime::worker_thread::{counted, thread_name, WorkerThread};
use crate::runtime::workers::{
    worker_entries, worker_slots, workers_get, workers_get_mut, workers_len,
};

verus! {

/// The largest pool that can be built.
pub const MAX_WORKERS: usize = 0x1_0000;

/// Whether position `k` is the one that the dispatch policy picks among
/// workers with these counts.
pub open spec fn is_choice(counts: Seq<usize>, k: int) -> bool {
    &&& 0 <= k < counts.len()
    &&& forall|j: int| 0 <= j < k ==> counts[j] != 0
    &&& counts[k] != 0 ==> {
        &&& forall|j: int| 0 <= j < counts.len() ==> 0 < #[trigger] counts[j] <= counts[k]
        &&& forall|j: int| 0 <= j < k ==> #[trigger] counts[j] < counts[k]
    }
}

/// What became of a task handed to the pool.
#[derive(Debug)]
pub enum Dispatch {
    /// The task is in the queue of this worker: `queued` is the record of
    /// it.
    Sent { worker: usize, queued: Queued },
    /// The thread of this worker is gone: the task came back in `refused`,
    /// and the worker needs a new thread before the task is offered again.
    Failed { worker: usize, refused: Refused },
}

/// Why the pool could not take a task after a worker was restarted.
#[derive(Debug)]
pub enum PoolError {
    /// The pool has no worker at this position.
    UnknownWorker { worker: usize },
    /// The restarted worker did not take the task either: it came back in
    /// `refused`.
    DispatchFailed { refused: Refused },
}

/// The pool of worker threads.
pub struct ThreadPool {
    threads: Slab<WorkerThread>,
}

impl ThreadPool {
    /// The pool's invariant: at least one worker, the workers sit under the
    /// keys from zero up without a gap, and each knows its own position.
    pub closed spec fn wf(&self) -> bool {
        let entries = worker_entries(self.threads);
        &&& entries.dom().finite()
        &&& 0 < entries.len() <= MAX_WORKERS
        &&& worker_slots(self.threads) == entries.len()
        &&& forall|k: usize| entries.contains_key(k) <==> k < entries.len()
        &&& forall|k: usize| entries.contains_key(k) ==> (#[trigger] entries[k]).id() == k
    }

    /// The workers in the order of their positions.
    pub closed spec fn view(&self) -> Seq<WorkerThread> {
        let entries = worker_entries(self.threads);
        Seq::new(entries.len(), |i: int| entries[i as usize])
    }

    /// How many tasks each worker has been sent since its thread was started.
    pub open spec fn counts(&self) -> Seq<usize> {
        Seq::new(self@.len(), |i: int| self@[i].amount_sent())
    }

    /// Whether `self` is `before` after `task` was handed to the pool with
    /// this outcome. The task is offered, once, to the queue of the worker
    /// that the policy picks: the record in the outcome names that task and
    /// that queue. Taken, the task is counted there; where the worker's
    /// thread is gone no count changes. No worker changes its position, name
    /// or queue.
    pub open spec fn dispatched(&self, before: ThreadPool, task: usize, outcome: Dispatch) -> bool {
        &&& self@.len() == before@.len()
        &&& match outcome {
            Dispatch::Sent { worker, queued } => {
                &&& is_choice(before.counts(), worker as int)
                &&& is_offer_of(Ok(queued), before@[worker as int].queue(), task)
                &&& self.counts() == before.counts().update(
                    worker as int,
                    counted(before.counts()[worker as int]),
                )
            },
            Dispatch::Failed { worker, refused } => {
                &&& is_choice(before.counts(), worker as int)
                &&& is_offer_of(Err(refused), before@[worker as int].queue(), task)
                &&& self.counts() == before.counts()
            },
        }
        &&& forall|i: int|
            0 <= i < self@.len() ==> {
                &&& (#[trigger] self@[i]).id() == before@[i].id()
                &&& self@[i].given_name() == before@[i].given_name()
                &&& self@[i].queue() == before@[i].queue()
            }
    }

    /// Whether `self` is `before` after the worker at `worker` was put on
    /// the queue `sender` and offered `task` again, with this outcome. A
    /// position beyond the pool is refused and nothing changes. Otherwise
    /// the task is offered, once, to the new queue: the record in the
    /// outcome names that task and that queue. The worker's count starts
    /// again: one where it took the task, zero where it did not. Nothing
    /// else changes.
    pub open spec fn recovered(
        &self,
        before: ThreadPool,
        worker: usize,
        sender: Sender<usize>,
        task: usize,
        outcome: Result<Queued, PoolError>,
    ) -> bool {
        &&& self@.len() == before@.len()
        &&& worker >= before@.len() ==> {
            &&& outcome matches Err(PoolError::UnknownWorker { worker: unknown })
            &&& unknown == worker
            &&& self@ == before@
        }
        &&& worker < before@.len() ==> {
            &&& match outcome {
                Ok(queued) => is_offer_of(Ok(queued), sender, task),
                Err(PoolError::DispatchFailed { refused }) => is_offer_of(
                    Err(refused),
                    sender,
                    task,
                ),
                Err(PoolError::UnknownWorker { .. }) => false,
            }
            &&& self@[worker as int].queue() == sender
            &&& self@[worker as int].amount_sent() == (if outcome is Ok {
                1usize
            } else {
                0usize
            })
            &&& self@[worker as int].id() == before@[worker as int].id()
            &&& self@[worker as int].given_name() == before@[worker as int].given_name()
            &&& forall|i: int|
                0 <= i < self@.len() && i != worker ==> #[trigger] self@[i] == before@[i]
        }
    }

    /// Wraps a slab of workers as a pool.
    pub(crate) fn from_workers(threads: Slab<WorkerThread>) -> (pool: ThreadPool)
        requires
            worker_entries(threads).dom().finite(),
            0 < worker_entries(threads).len() <= MAX_WORKERS,
            worker_slots(threads) == worker_entries(threads).len(),
            forall|k: usize|
                worker_entries(threads).contains_key(k) <==> k < worker_entries(threads).len(),
            forall|k: usize|
                worker_entries(threads).contains_key(k) ==> (#[trigger] worker_entries(
                    threads,
                )[k]).id() == k,
        ensures
            pool.wf(),
            pool@ == Seq::new(
                worker_entries(threads).len(),
                |i: int| worker_entries(threads)[i as usize],
            ),
    {
        ThreadPool { threads }
    }

    /// A pool with one worker for each queue, in the order of the queues:
    /// the worker at position `i` is fed through `senders[i]`, is named
    /// `thread-i`, and has been sent nothing.
    pub fn new(senders: Vec<Sender<usize>>, parallelism: usize) -> (pool: ThreadPool)
        requires
            0 < senders.len() <= parallelism,
            senders.len() <= MAX_WORKERS,
        ensures
            pool.wf(),
            pool@.len() == senders.len(),
            forall|i: int|
                0 <= i < senders.len() ==> {
                    let worker = #[trigger] pool@[i];
                    &&& worker.id() == i
                    &&& worker.amount_sent() == 0
                    &&& worker.is_active()
                    &&& worker.queue() == senders[i]
                    &&& worker.given_name() == Some(thread_name(i as usize))
                },
    {
        let threads = WorkerThread::create_n(senders, parallelism);
        ThreadPool::from_workers(threads)
    }

    /// The number of workers.
    pub fn len(&self) -> (n: usize)
        requires
            self.wf(),
        ensures
            n == self@.len(),
            0 < n <= MAX_WORKERS,
    {
        workers_len(&self.threads)
    }

    /// The worker at position `worker`, if the pool has one there.
    pub fn worker(&self, worker: usize) -> (found: Option<&WorkerThread>)
        requires
            self.wf(),
        ensures
            found == if worker < self@.len() {
                Some(&self@[worker as int])
            } else {
                None
            },
    {
        workers_get(&self.threads, worker)
    }

    /// The position of the worker that the next task goes to.
    pub fn select(&self) -> (worker: usize)
        requires
            self.wf(),
        ensures
            is_choice(self.counts(), worker as int),
    {
        let n = workers_len(&self.threads);
        let mut best_amount: usize = 0;
        let mut best_key: usize = 0;
        let mut k: usize = 0;
        while k < n
            invariant
                self.wf(),
                n == self@.len(),
                k <= n,
                best_key <= k,
                k > 0 ==> best_key < k && self.counts()[best_key as int] == best_amount,
                k == 0 ==> best_amount == 0,
                forall|j: int| 0 <= j < k ==> 0 < #[trigger] self.counts()[j] <= best_amount,
                forall|j: int| 0 <= j < best_key ==> #[trigger] self.counts()[j] < best_amount,
            decreases n - k,
        {
            let amount = match workers_get(&self.threads, k) {
                Some(worker) => worker.get_amount_sent(),
                None => 0,
            };
            assert(amount == self.counts()[k as int]);
            if amount == 0 {
                return k;
            }
            if amount > best_amount {
                best_key = k;
                best_amount = amount;
            }
            k = k + 1;
        }
        best_key
    }

    /// Hands a task to the worker that the policy picks: the task is offered
    /// to that worker's queue, once, and counted there where the queue took
    /// it. Where that worker's thread is gone the task comes back and the
    /// pool stays as it was. Either way the outcome holds the record of the
    /// offer.
    pub fn distribute_task(&mut self, task: usize) -> (outcome: Dispatch)
        requires
            old(self).wf(),
        ensures
            final(self).wf(),
            final(self).dispatched(*old(self), task, outcome),
    {
        let worker = self.select();
        let ghost before = worker_entries(self.threads);
        let sent = match workers_get_mut(&mut self.threads, worker) {
            Some(thread) => thread.send(task),
            None => unreached(),
        };
        proof {
            let after = worker_entries(self.threads);
            assert(after.dom() =~= before.dom());
            assert(forall|i: int|
                0 <= i < self@.len() && i != worker ==> #[trigger] self@[i] == old(self)@[i]);
        }
        match sent {
            Ok(queued) => {
                assert(self.counts() =~= old(self).counts().update(
                    worker as int,
                    counted(old(self).counts()[worker as int]),
                ));
                Dispatch::Sent { worker, queued }
            },
            Err(refused) => {
                assert(self.counts() =~= old(self).counts());
                Dispatch::Failed { worker, refused }
            },
        }
    }

    /// Puts the worker at `worker` on the queue of its new thread and offers
    /// it, once, the task that its old thread could not take. The worker's
    /// count starts again. A second refusal is final. The outcome holds the
    /// record of the offer.
    pub fn recover(&mut self, worker: usize, sender: Sender<usize>, task: usize) -> (outcome: Result<
        Queued,
        PoolError,
    >)
        requires
            old(self).wf(),
        ensures
            final(self).wf(),
            final(self).recovered(*old(self), worker, sender, task, outcome),
    {
        let ghost before = worker_entries(self.threads);
        let found = workers_get_mut(&mut self.threads, worker);
        match found {
            Some(thread) => {
                thread.recreate_thread(sender);
                let sent = thread.send(task);
                proof {
                    let after = worker_entries(self.threads);
                    assert(after.dom() =~= before.dom());
                }
                match sent {
                    Ok(queued) => Ok(queued),
                    Err(refused) => Err(PoolError::DispatchFailed { refused }),
                }
            },
            None => {
                assert(self@ =~= old(self)@);
                Err(PoolError::UnknownWorker { worker })
            },
        }
    }
}

/// The policy picks one position and no other.
pub proof fn lemma_choice_unique(counts: Seq<usize>, a: int, b: int)
    requires
        is_choice(counts, a),
        is_choice(counts, b),
    ensures
        a == b,
{
    if a < b {
        assert(counts[a] != 0);
        assert(counts[a] < counts[b]);
        assert(counts[b] <= counts[a]);
    } else if b < a {
        assert(counts[b] != 0);
        assert(counts[b] < counts[a]);
        assert(counts[a] <= counts[b]);
    }
}

} // verus!
