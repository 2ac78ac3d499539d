//! `std::task::Waker` as the verifier sees it: an opaque value, with the
//! three calls that the runtime makes on it.

use vstd::prelude::*;
use std::task::Waker;

verus! {

/// `std::task::Waker`, carried through verified code without looking inside.
#[verifier::external_type_specification]
#[verifier::external_body]
pub struct ExWaker(std::task::Waker);

/// Calls `Waker::clone`. The copy stands for the same waker: it wakes the
/// task that `waker` wakes.
#[verifier::external_body]
pub(crate) fn clone_waker(waker: &std::task::Waker) -> (copy: std::task::Waker)
    ensures
        copy == *waker,
{
    waker.clone()
}

/// Calls `Waker::will_wake`. The answer is best effort: `false` may come back
/// for two wakers of one task, so nothing is promised of it.
#[verifier::external_body]
pub(crate) fn will_wake(current: &std::task::Waker, other: &std::task::Waker) -> (same: bool)
{
    current.will_wake(other)
}

/// The record of an invocation. Nothing but `invoke` makes one, so whoever
/// holds one has it from a waker that was invoked.
pub struct Invoked {
    waker: Waker,
}

impl Invoked {
    /// The waker that was invoked.
    pub closed spec fn waker(&self) -> Waker {
        self.waker
    }

    /// The waker that was invoked.
    pub fn get_waker(&self) -> (waker: &Waker)
        ensures
            *waker == self.waker(),
    {
        &self.waker
    }
}

/// Calls `Waker::wake_by_ref`, which schedules the waker's task, and hands
/// the waker back in the record of the invocation.
#[verifier::external_body]
pub(crate) fn invoke(waker: Waker) -> (done: Invoked)
    ensures
        done.waker() == waker,
{
    waker.wake_by_ref();
    Invoked { waker }
}

} // verus!
