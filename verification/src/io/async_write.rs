//! Writing to a source without blocking the thread.

use vstd::prelude::*;
use std::task::Waker;
use crate::io::event::Direction;
use crate::io::reactor::{Reactor, ReactorError};
use crate::io::tcp_stream::{Attempt, IoPoll, Registration};

verus! {

/// A source that is written through the reactor.
pub trait AsyncWrite {
    /// Where the source stands with the reactor.
    spec fn registration(&self) -> Registration;

    /// What a suspended write yields after the source's `write` returned
    /// `result`. A source that is not registered is refused, whatever
    /// `result` is. Otherwise a count is handed on, and so is an error,
    /// unless its kind says that the write would have blocked: then `waker` is
    /// left with the reactor and the write waits.
    fn async_write(
        &self,
        reactor: &mut Reactor,
        result: Result<usize, std::io::Error>,
        waker: &Waker,
    ) -> (polled: Result<IoPoll, ReactorError>)
        requires
            old(reactor).wf(),
        ensures
            final(reactor).wf(),
            self.registration().finished(
                *old(reactor),
                *final(reactor),
                Direction::Write,
                Attempt::of(result),
                *waker,
                polled,
            ),
    ;
}

impl AsyncWrite for Registration {
    open spec fn registration(&self) -> Registration {
        *self
    }

    fn async_write(
        &self,
        reactor: &mut Reactor,
        result: Result<usize, std::io::Error>,
        waker: &Waker,
    ) -> (polled: Result<IoPoll, ReactorError>) {
        self.finish(reactor, Direction::Write, Attempt::from_result(result), waker)
    }
}

} // verus!
