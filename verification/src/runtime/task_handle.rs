//! The handle by which the spawner of a task awaits its result.
//!
//! A handle does not keep its task alive and does not stop it: it names the
//! task and looks at it when it is polled.

use vstd::prelude::*;
use std::task::Waker;
use crate::runtime::task::Task;

verus! {

/// What a handle yields when it is polled.
#[derive(Debug, PartialEq, Eq)]
pub enum HandlePoll<T> {
    /// The task is done. Its result is there where the task finished and
    /// nobody took the result before; it is missing where the task was
    /// dropped.
    Ready(Option<T>),
    /// The task is not done, and the awaiter's waker waits with it.
    Pending,
}

/// The handle of a spawned task.
#[derive(Clone, Copy, Debug, PartialEq, Eq, Structural)]
pub struct TaskHandle {
    task: usize,
}

impl TaskHandle {
    /// The number of the task that the handle awaits.
    pub closed spec fn task_id(&self) -> usize {
        self.task
    }

    /// What the handle yields when it is polled and finds `task`: nothing
    /// where its task is gone or another has taken its place, the result
    /// where its task is ready, and a wait where it is not.
    pub open spec fn yields<T>(&self, task: Option<Task<T>>) -> HandlePoll<T> {
        match task {
            None => HandlePoll::Ready(None),
            Some(t) => if t.id() != self.task_id() {
                HandlePoll::Ready(None)
            } else if t.life().ready() {
                HandlePoll::Ready(t.output())
            } else {
                HandlePoll::Pending
            },
        }
    }

    /// A handle of the task with number `task`.
    pub fn new(task: usize) -> (handle: TaskHandle)
        ensures
            handle.task_id() == task,
    {
        TaskHandle { task }
    }

    /// The number of the task that the handle awaits.
    pub fn get_task(&self) -> (task: usize)
        ensures
            task == self.task_id(),
    {
        self.task
    }

    /// Polls the handle. `task` is the handle's task where it still exists.
    /// A task that is gone yields ready without a result, and so does any
    /// task but the handle's own. A task that is ready yields its result. A
    /// task that is not leaves the awaiter's waker with the task and yields
    /// pending. The task's lifecycle is not touched.
    pub fn poll<T>(&self, task: Option<&mut Task<T>>, waker: &Waker) -> (polled: HandlePoll<T>)
        ensures
            polled == self.yields(
                match task {
                    Some(t) => Some(*t),
                    None => None,
                },
            ),
            task matches Some(t) ==> {
                &&& final(t).life() == t.life()
                &&& final(t).id() == t.id()
                &&& final(t).output() == if polled matches HandlePoll::Ready(_) && t.id()
                    == self.task_id() {
                    None
                } else {
                    t.output()
                }
                &&& final(t).observer() == t.observer() || (polled matches HandlePoll::Pending
                    && final(t).observer() == Some(*waker))
                &&& polled matches HandlePoll::Pending ==> final(t).observer().is_some()
            },
    {
        match task {
            None => HandlePoll::Ready(None),
            Some(t) => {
                if t.get_id() != self.task {
                    HandlePoll::Ready(None)
                } else if t.ready() {
                    HandlePoll::Ready(t.take_output())
                } else {
                    t.change_waker(waker);
                    HandlePoll::Pending
                }
            },
        }
    }
}

} // verus!
