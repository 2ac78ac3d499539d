//! A timer that a task polls until its time has come.

use vstd::prelude::*;
use std::task::Waker;
use crate::io::waker::{clone_waker, invoke, Invoked};

verus! {

/// What a delay yields when it is polled.
pub enum DelayPoll {
    /// The time has come.
    Over,
    /// The time has not come, and the task's waker was invoked.
    Waiting(Invoked),
}

/// A point in time, in ticks of whatever clock the caller reads, after which
/// the delay is over.
#[derive(Clone, Copy, Debug, PartialEq, Eq, Structural)]
pub struct Delay {
    time: u64,
}

impl Delay {
    /// The tick at which the delay is over.
    pub closed spec fn deadline(&self) -> u64 {
        self.time
    }

    /// A delay that is over at `now`.
    pub fn new(now: u64) -> (delay: Delay)
        ensures
            delay.deadline() == now,
    {
        Delay { time: now }
    }

    /// A delay that is over `ticks` after `now`, or at the last tick of the
    /// clock where that would lie beyond it.
    pub fn after(now: u64, ticks: u64) -> (delay: Delay)
        ensures
            delay.deadline() == if now + ticks <= u64::MAX {
                (now + ticks) as u64
            } else {
                u64::MAX
            },
    {
        Delay { time: now.saturating_add(ticks) }
    }

    /// Polls the delay at `now`. A delay that is over yields nothing more.
    /// While it is not over, the task's waker is invoked at once, so that
    /// the task looks again, and the record of that is handed out.
    pub fn poll(&self, now: u64, waker: &Waker) -> (polled: DelayPoll)
        ensures
            match polled {
                DelayPoll::Over => now >= self.deadline(),
                DelayPoll::Waiting(woke) => now < self.deadline() && woke.waker() == *waker,
            },
    {
        if now >= self.time {
            DelayPoll::Over
        } else {
            DelayPoll::Waiting(invoke(clone_waker(waker)))
        }
    }
}

} // verus!
