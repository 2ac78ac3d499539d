//! A task as the executor sees it: where it stands in its lifecycle, the
//! result of its computation once there is one, and the waker of whoever
//! awaits that result.

use vstd::prelude::*;
use std::task::Waker;
use crate::io::iosource::is_invocation_of;
use crate::io::waker::{clone_waker, invoke, will_wake, Invoked};
use crate::runtime::lifecycle::{Lifecycle, TaskState, Verdict};
use crate::runtime::mut_cell::MutCell;

verus! {

/// What the end of a poll came to.
pub struct Settled {
    /// What the end of the poll means for the task.
    pub verdict: Verdict,
    /// The record of invoking the waker of the task's observer, where the
    /// task has finished and has an observer.
    pub observer: Option<Invoked>,
}

/// One task of the runtime.
pub struct Task<T> {
    id: usize,
    life: Lifecycle,
    output: Option<T>,
    waker: MutCell<Option<Waker>>,
}

impl<T> Task<T> {
    /// The number by which the executor knows the task.
    pub closed spec fn id(&self) -> usize {
        self.id
    }

    /// Where the task stands in its lifecycle.
    pub closed spec fn life(&self) -> Lifecycle {
        self.life
    }

    /// The result of the task's computation, while nobody has taken it.
    pub closed spec fn output(&self) -> Option<T> {
        self.output
    }

    /// The waker of whoever awaits the task's result, if anyone does.
    pub closed spec fn observer(&self) -> Option<Waker> {
        self.waker@
    }

    /// The task's invariant: its lifecycle is in order, and only a task that
    /// is ready holds a result.
    pub open spec fn wf(&self) -> bool {
        &&& self.life().wf()
        &&& self.output().is_some() ==> self.life().ready()
    }

    /// A task that has just been spawned: runnable, without a result and
    /// without an observer.
    pub fn new(id: usize) -> (task: Task<T>)
        ensures
            task.wf(),
            task.id() == id,
            task.life() == Lifecycle::start(),
            task.output().is_none(),
            task.observer().is_none(),
    {
        Task { id, life: Lifecycle::new(), output: None, waker: MutCell::new(None) }
    }

    /// The number by which the executor knows the task.
    pub fn get_id(&self) -> (id: usize)
        ensures
            id == self.id(),
    {
        self.id
    }

    /// The waker of whoever awaits the task's result, if anyone does.
    pub fn get_waker(&self) -> (slot: &Option<Waker>)
        ensures
            *slot == self.observer(),
    {
        self.waker.get()
    }

    /// Whether the task has finished or was dropped.
    pub fn ready(&self) -> (ready: bool)
        ensures
            ready == self.life().ready(),
    {
        self.life.is_ready()
    }

    /// The state of the task.
    pub fn state(&self) -> (state: TaskState)
        ensures
            state == self.life().state,
    {
        self.life.state
    }

    /// A worker that took the task from a queue asks to poll it. It may
    /// where the task is runnable; a task that is ready, waits or is being
    /// polled by another worker is left alone.
    pub fn begin_poll(&mut self) -> (granted: bool)
        requires
            old(self).wf(),
        ensures
            final(self).wf(),
            granted == old(self).life().grants(),
            final(self).life() == old(self).life().claimed(),
            final(self).id() == old(self).id(),
            final(self).output() == old(self).output(),
            final(self).observer() == old(self).observer(),
    {
        self.life.claim()
    }

    /// The poll that `begin_poll` granted has ended, with `result` where the
    /// computation finished. A result makes the task ready, is kept for the
    /// observer, and the observer's waker, if there is one, is invoked.
    /// Without a result the task waits, or goes back to the queue where it
    /// was woken in the meantime. On a task that is not being polled nothing
    /// happens, and the result is discarded.
    pub fn finish_poll(&mut self, result: Option<T>) -> (settled: Settled)
        requires
            old(self).wf(),
        ensures
            final(self).wf(),
            settled.verdict == old(self).life().verdict(result.is_some()),
            is_invocation_of(
                settled.observer,
                if settled.verdict == Verdict::Completed {
                    old(self).observer()
                } else {
                    None
                },
            ),
            final(self).life() == old(self).life().settled(result.is_some()),
            final(self).output() == if settled.verdict == Verdict::Completed {
                result
            } else {
                old(self).output()
            },
            final(self).id() == old(self).id(),
            final(self).observer() == old(self).observer(),
    {
        let verdict = self.life.settle(result.is_some());
        match verdict {
            Verdict::Completed => {
                self.output = result;
                let observer = self.wake_observer();
                Settled { verdict, observer }
            },
            _ => Settled { verdict, observer: None },
        }
    }

    /// The task's waker was invoked. The answer says that the task is to be
    /// put in a queue, once, as it is on every wake-up. A task that was
    /// waiting is runnable from now on. A task that is being polled
    /// remembers the wake-up. A task that is runnable or ready stays as it
    /// is, and the worker that takes its entry from the queue is not let to
    /// poll a ready task.
    pub fn wake(&mut self) -> (enqueue: bool)
        requires
            old(self).wf(),
        ensures
            final(self).wf(),
            enqueue,
            final(self).life() == old(self).life().woken(),
            final(self).id() == old(self).id(),
            final(self).output() == old(self).output(),
            final(self).observer() == old(self).observer(),
    {
        self.life.wake()
    }

    /// Makes sure that the task of `waker` is woken when this one finishes.
    /// An empty slot takes a copy of `waker`; a slot that holds a waker keeps
    /// it where that waker is known to wake the same task, and takes a copy
    /// of `waker` otherwise. The task itself goes on as before.
    pub fn change_waker(&mut self, waker: &Waker)
        ensures
            final(self).observer() == Some(*waker) || (old(self).observer().is_some()
                && final(self).observer() == old(self).observer()),
            final(self).life() == old(self).life(),
            final(self).id() == old(self).id(),
            final(self).output() == old(self).output(),
    {
        let same_task = match self.waker.get() {
            Some(current) => will_wake(current, waker),
            None => false,
        };
        self.set_observer(waker, same_task);
    }

    /// Puts `waker` in the observer's slot, unless the slot holds a waker and
    /// `same_task` says that it wakes the task that `waker` wakes: then the
    /// slot keeps what it holds.
    pub fn set_observer(&mut self, waker: &Waker, same_task: bool)
        ensures
            final(self).observer() == if same_task && old(self).observer().is_some() {
                old(self).observer()
            } else {
                Some(*waker)
            },
            final(self).life() == old(self).life(),
            final(self).id() == old(self).id(),
            final(self).output() == old(self).output(),
    {
        let keep = same_task && self.waker.get().is_some();
        if !keep {
            let slot = self.waker.get_mut();
            *slot = Some(clone_waker(waker));
        }
    }

    /// Invokes the observer's waker, if there is one, and hands out the
    /// record of the invocation.
    fn wake_observer(&self) -> (woke: Option<Invoked>)
        ensures
            is_invocation_of(woke, self.observer()),
    {
        match self.waker.get() {
            Some(waker) => Some(invoke(clone_waker(waker))),
            None => None,
        }
    }

    /// The task is dropped. It is ready from now on, whatever it was doing,
    /// and the observer's waker, if there is one, is invoked: the answer is
    /// the record of that. A result that the task holds stays for the
    /// observer.
    pub fn cancel(&mut self) -> (woke_observer: Option<Invoked>)
        requires
            old(self).wf(),
        ensures
            final(self).wf(),
            is_invocation_of(woke_observer, old(self).observer()),
            final(self).life() == old(self).life().cancelled(),
            final(self).id() == old(self).id(),
            final(self).output() == old(self).output(),
            final(self).observer() == old(self).observer(),
    {
        self.life.cancel();
        self.wake_observer()
    }

    /// Hands out the result of the task, once: afterwards the task holds
    /// none.
    pub fn take_output(&mut self) -> (output: Option<T>)
        ensures
            output == old(self).output(),
            final(self).output().is_none(),
            final(self).life() == old(self).life(),
            final(self).id() == old(self).id(),
            final(self).observer() == old(self).observer(),
    {
        self.output.take()
    }
}

} // verus!
