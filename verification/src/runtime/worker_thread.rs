//! One worker of the pool: the queue that feeds it and the count of tasks
//! handed to it since it was last started.

use vstd::prelude::*;
use std::sync::mpsc::Sender;
use slab::Slab;
use crate::slab_spec::slot_bound;
use crate::runtime::channel::{channel_send, clone_sender, is_offer_of, Queued, Refused};
use crate::runtime::workers::{
    worker_entries, worker_slots, workers_insert, workers_with_capacity,
};

verus! {

/// The name that a worker without a name of its own goes by.
pub open spec fn unnamed() -> Seq<char> {
    "unnamed"@
}

/// The character that stands for a digit below ten.
pub open spec fn digit(d: nat) -> char {
    ((48 + d) as u8) as char
}

/// A number written out in decimal digits, without a leading zero.
pub open spec fn decimal(n: nat) -> Seq<char>
    decreases n,
{
    if n < 10 {
        seq![digit(n)]
    } else {
        decimal(n / 10).push(digit(n % 10))
    }
}

/// The name of the worker at position `id` of a pool: `thread-` and the
/// position in decimal digits.
pub open spec fn thread_name(id: usize) -> Seq<char> {
    "thread-"@ + decimal(id as nat)
}

/// Writes the name of the worker at position `id` with `format!`, which puts
/// the number in decimal digits without a sign or a leading zero.
#[verifier::external_body]
fn make_thread_name(id: usize) -> (name: String)
    ensures
        name@ == thread_name(id),
{
    format!("thread-{id}")
}

/// The count of a worker after one more task was sent to it. The count stops
/// at the largest number it can hold.
pub open spec fn counted(amount: usize) -> usize {
    if amount < usize::MAX {
        (amount + 1) as usize
    } else {
        amount
    }
}

/// Describes a thread of the runtime.
pub struct WorkerThread {
    name: Option<String>,
    sender: Sender<usize>,
    amount: usize,
    id: usize,
    active: bool,
}

impl WorkerThread {
    /// The worker's position in the pool.
    pub closed spec fn id(&self) -> usize {
        self.id
    }

    /// The number of tasks sent to the worker since its thread was started.
    pub closed spec fn amount_sent(&self) -> usize {
        self.amount
    }

    /// The name given at creation, if any.
    pub closed spec fn given_name(&self) -> Option<Seq<char>> {
        match self.name {
            Some(n) => Some(n@),
            None => None,
        }
    }

    /// The queue that feeds the worker's thread.
    pub closed spec fn queue(&self) -> Sender<usize> {
        self.sender
    }

    /// Whether the worker is in service.
    pub closed spec fn is_active(&self) -> bool {
        self.active
    }

    /// The name under which the worker is reported.
    pub open spec fn name(&self) -> Seq<char> {
        match self.given_name() {
            Some(n) => n,
            None => unnamed(),
        }
    }

    /// A worker fed through `sender`, to which nothing has been sent yet.
    pub fn new(id: usize, name: Option<String>, sender: Sender<usize>) -> (worker: WorkerThread)
        ensures
            worker.id() == id,
            worker.amount_sent() == 0,
            worker.is_active(),
            worker.queue() == sender,
            worker.given_name() == match name {
                Some(n) => Some(n@),
                None => None,
            },
    {
        WorkerThread { name, sender, amount: 0, id, active: true }
    }

    /// Puts the worker on a fresh queue after its thread died: the count
    /// starts again from zero, name and position stay.
    pub fn recreate_thread(&mut self, sender: Sender<usize>)
        ensures
            final(self).queue() == sender,
            final(self).amount_sent() == 0,
            final(self).id() == old(self).id(),
            final(self).given_name() == old(self).given_name(),
            final(self).is_active() == old(self).is_active(),
    {
        self.sender = sender;
        self.amount = 0;
    }

    /// Builds one worker for each queue, in the order of the queues. The
    /// worker at position `i` is named `thread-i`.
    pub(crate) fn create_n(senders: Vec<Sender<usize>>, parallelism: usize) -> (workers: Slab<
        WorkerThread,
    >)
        requires
            0 < senders.len() <= parallelism,
            senders.len() <= slot_bound(),
        ensures
            worker_entries(workers).dom().finite(),
            worker_entries(workers).len() == senders.len(),
            worker_slots(workers) == senders.len(),
            forall|k: usize| worker_entries(workers).contains_key(k) <==> k < senders.len(),
            forall|k: usize|
                k < senders.len() ==> {
                    let worker = #[trigger] worker_entries(workers)[k];
                    &&& worker.id() == k
                    &&& worker.amount_sent() == 0
                    &&& worker.is_active()
                    &&& worker.queue() == senders[k as int]
                    &&& worker.given_name() == Some(thread_name(k))
                },
    {
        let amount = senders.len();
        let mut rest = senders;
        let mut thread_pool = workers_with_capacity(amount);
        let mut len: usize = 0;
        while len < amount
            invariant
                amount == senders.len(),
                amount <= slot_bound(),
                len <= amount,
                rest@ == senders@.subrange(len as int, amount as int),
                worker_entries(thread_pool).dom().finite(),
                worker_entries(thread_pool).len() == len,
                worker_slots(thread_pool) == len,
                forall|k: usize| worker_entries(thread_pool).contains_key(k) <==> k < len,
                forall|k: usize|
                    k < len ==> {
                        let worker = #[trigger] worker_entries(thread_pool)[k];
                        &&& worker.id() == k
                        &&& worker.amount_sent() == 0
                        &&& worker.is_active()
                        &&& worker.queue() == senders[k as int]
                        &&& worker.given_name() == Some(thread_name(k))
                    },
            decreases amount - len,
        {
            let name = Some(make_thread_name(len));
            let sender = rest.remove(0);
            assert(rest@ =~= senders@.subrange(len + 1, amount as int));
            let thread = WorkerThread::new(len, name, sender);
            let ghost before = worker_entries(thread_pool);
            let key = workers_insert(&mut thread_pool, thread);
            assert(key == len);
            assert(worker_entries(thread_pool).dom() =~= before.dom().insert(key));
            len = len + 1;
        }
        thread_pool
    }

    /// Whether a pool of `amount` workers may be built on a machine that runs
    /// `parallelism` threads at once: at least one worker, and no more than
    /// the machine has.
    pub fn ok_thread_amount(amount: usize, parallelism: usize) -> (ok: bool)
        ensures
            ok == (0 < amount <= parallelism),
    {
        0 < amount && amount <= parallelism
    }

    /// Takes note of what the worker's queue answered to an offer. A task
    /// that the queue took is counted: the count goes up by one and stops at
    /// the largest number it can hold. A task that was refused is not
    /// counted. The answer is handed on as it came.
    pub fn settle_send(&mut self, sent: Result<Queued, Refused>) -> (outcome: Result<Queued, Refused>)
        ensures
            outcome == sent,
            final(self).amount_sent() == if sent is Ok {
                counted(old(self).amount_sent())
            } else {
                old(self).amount_sent()
            },
            final(self).id() == old(self).id(),
            final(self).given_name() == old(self).given_name(),
            final(self).queue() == old(self).queue(),
            final(self).is_active() == old(self).is_active(),
    {
        if sent.is_ok() && self.amount < usize::MAX {
            self.amount = self.amount + 1;
        }
        sent
    }

    /// Offers a task to the worker's queue, once, and counts it where the
    /// queue took it. The answer is the record of that offer: it names the
    /// task and the worker's queue. When the worker's thread is gone the
    /// task comes back in the record and the count stays.
    pub fn send(&mut self, task: usize) -> (sent: Result<Queued, Refused>)
        ensures
            is_offer_of(sent, old(self).queue(), task),
            final(self).amount_sent() == if sent is Ok {
                counted(old(self).amount_sent())
            } else {
                old(self).amount_sent()
            },
            final(self).id() == old(self).id(),
            final(self).given_name() == old(self).given_name(),
            final(self).queue() == old(self).queue(),
            final(self).is_active() == old(self).is_active(),
    {
        let sent = channel_send(clone_sender(&self.sender), task);
        self.settle_send(sent)
    }

    /// The amount of tasks sent to the thread.
    pub fn get_amount_sent(&self) -> (amount: usize)
        ensures
            amount == self.amount_sent(),
    {
        self.amount
    }

    /// The name of the thread, or the default "unnamed".
    pub fn get_name(&self) -> (name: &str)
        ensures
            name@ == self.name(),
    {
        match &self.name {
            Some(n) => n.as_str(),
            None => "unnamed",
        }
    }
}

} // verus!
