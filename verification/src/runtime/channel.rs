//! The sending half of a worker's queue. A queue carries task identifiers;
//! whoever owns the receiving half maps them back to tasks.
//!
//! What became of a task that was offered to a queue is told by a record
//! that nothing but the offer itself makes.

use vstd::prelude::*;
use std::sync::mpsc::Sender;

verus! {

/// `std::sync::mpsc::Sender`, carried through verified code without looking
/// inside.
#[verifier::external_type_specification]
#[verifier::external_body]
#[verifier::reject_recursive_types(T)]
pub struct ExSender<T>(std::sync::mpsc::Sender<T>);

/// The record of a task that a queue took. Nothing but `channel_send` makes
/// one.
#[derive(Debug)]
pub struct Queued {
    task: usize,
    queue: Sender<usize>,
}

/// The record of a task that a queue did not take, because its receiving
/// half is gone. Nothing but `channel_send` makes one.
#[derive(Debug)]
pub struct Refused {
    task: usize,
    queue: Sender<usize>,
}

impl Queued {
    /// The task that was put in the queue.
    pub closed spec fn task(&self) -> usize {
        self.task
    }

    /// The queue that took the task.
    pub closed spec fn queue(&self) -> Sender<usize> {
        self.queue
    }

    /// The task that was put in the queue.
    pub fn get_task(&self) -> (task: usize)
        ensures
            task == self.task(),
    {
        self.task
    }
}

impl Refused {
    /// The task that came back.
    pub closed spec fn task(&self) -> usize {
        self.task
    }

    /// The queue that did not take the task.
    pub closed spec fn queue(&self) -> Sender<usize> {
        self.queue
    }

    /// The task that came back.
    pub fn get_task(&self) -> (task: usize)
        ensures
            task == self.task(),
    {
        self.task
    }
}

/// What became of one offer of `task` to `queue`: the record names that task
/// and that queue, whichever way the offer went.
pub open spec fn is_offer_of(sent: Result<Queued, Refused>, queue: Sender<usize>, task: usize) -> bool {
    match sent {
        Ok(queued) => queued.task() == task && queued.queue() == queue,
        Err(refused) => refused.task() == task && refused.queue() == queue,
    }
}

/// Calls `Sender::clone`. The copy stands for the same sender: what is sent
/// through it arrives in the queue of the sender it was made from.
#[verifier::external_body]
pub(crate) fn clone_sender(sender: &Sender<usize>) -> (copy: Sender<usize>)
    ensures
        copy == *sender,
{
    sender.clone()
}

/// Calls `Sender::send`. Whether the receiving half is still alive decides
/// the outcome, so success is not promised. Either way the record names the
/// task that was offered and the queue that it was offered to; on failure
/// the task is the one that the channel handed back.
#[verifier::external_body]
pub(crate) fn channel_send(sender: Sender<usize>, task: usize) -> (sent: Result<Queued, Refused>)
    ensures
        is_offer_of(sent, sender, task),
{
    match sender.send(task) {
        Ok(()) => Ok(Queued { task, queue: sender }),
        Err(e) => Err(Refused { task: e.0, queue: sender }),
    }
}

} // verus!
