//! Reading from a source without blocking the thread.

use vstd::prelude::*;
use std::task::Waker;
use crate::io::event::Direction;
use crate::io::reactor::{Reactor, ReactorError};
use crate::io::tcp_stream::{Attempt, IoPoll, Registration};

verus! {

/// A source that is read through the reactor.
pub trait AsyncRead {
    /// Where the source stands with the reactor.
    spec fn registration(&self) -> Registration;

    /// What a suspended read yields after the source's `read` returned
    /// `result`. A source that is not registered is refused, whatever
    /// `result` is. Otherwise a count is handed on, and so is an error,
    /// unless its kind says that the read would have blocked: then `waker` is
    /// left with the reactor and the read waits.
    fn async_read(
        &self,
        reactor: &mut Reactor,
        result: Result<usize, std::io::Error>,
        waker: &Waker,
    ) -> (polled: Result<IoPoll, ReactorError>)
        requires
            old(reactor).wf(),
        ensures
            final(reactor).wf(),
            self.registration().finished(
                *old(reactor),
                *final(reactor),
                Direction::Read,
                Attempt::of(result),
                *waker,
                polled,
            ),
    ;
}

impl AsyncRead for Registration {
    open spec fn registration(&self) -> Registration {
        *self
    }

    fn async_read(
        &self,
        reactor: &mut Reactor,
        result: Result<usize, std::io::Error>,
        waker: &Waker,
    ) -> (polled: Result<IoPoll, ReactorError>) {
        self.finish(reactor, Direction::Read, Attempt::from_result(result), waker)
    }
}

} // verus!
