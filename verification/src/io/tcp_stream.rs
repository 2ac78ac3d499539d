//! The reactor's side of a non-blocking stream.
//!
//! A stream attempts its read or write on the socket and hands the outcome
//! to its registration, which decides what the suspended operation yields:
//! the byte count, the error, or a wait for which the task's waker is left
//! with the reactor.

use vstd::prelude::*;
use std::task::Waker;
use crate::io::error::{class_of, error_class, ErrorClass};
use crate::io::event::Direction;
use crate::io::reactor::{Reactor, ReactorError};

verus! {

/// The outcome of one attempt to read from or write to a socket.
pub enum Attempt {
    /// So many bytes were moved.
    Done(usize),
    /// Nothing could be moved without waiting.
    WouldBlock,
    /// The attempt failed for good.
    Failed(std::io::Error),
}

/// What a suspended read or write yields when it is polled.
pub enum IoPoll {
    /// The operation is over: so many bytes were moved.
    Ready(usize),
    /// The operation is over: it failed.
    Failed(std::io::Error),
    /// The operation waits for the source to become ready.
    Pending,
}

impl Attempt {
    /// The outcome of an attempt whose error, if any, is of class `class`:
    /// a count is done, an error that would block is a wait, and every other
    /// error is final.
    pub open spec fn classified_as(result: Result<usize, std::io::Error>, class: ErrorClass) -> Attempt {
        match result {
            Ok(count) => Attempt::Done(count),
            Err(error) => if class == ErrorClass::WouldBlock {
                Attempt::WouldBlock
            } else {
                Attempt::Failed(error)
            },
        }
    }

    /// The outcome of an attempt whose error, if any, is of class `class`.
    pub fn classified(result: Result<usize, std::io::Error>, class: ErrorClass) -> (attempt: Attempt)
        ensures
            attempt == Attempt::classified_as(result, class),
    {
        match result {
            Ok(count) => Attempt::Done(count),
            Err(error) => match class {
                ErrorClass::WouldBlock => Attempt::WouldBlock,
                _ => Attempt::Failed(error),
            },
        }
    }

    /// The outcome of an attempt that returned `result`: a count is done, an
    /// error whose class is `WouldBlock` is a wait, and every other error is
    /// final.
    pub open spec fn of(result: Result<usize, std::io::Error>) -> Attempt {
        match result {
            Ok(count) => Attempt::Done(count),
            Err(error) => Attempt::classified_as(result, error_class(error)),
        }
    }

    /// The outcome of an attempt that returned `result`. A count is done. An
    /// error is a wait where its kind says that the attempt would have
    /// blocked, and final otherwise.
    pub fn from_result(result: Result<usize, std::io::Error>) -> (attempt: Attempt)
        ensures
            attempt == Attempt::of(result),
    {
        let class = match &result {
            Ok(_) => ErrorClass::Other,
            Err(error) => class_of(error),
        };
        Attempt::classified(result, class)
    }
}

/// Where a stream stands with the reactor.
#[derive(Clone, Copy, Debug, PartialEq, Eq, Structural)]
pub enum Registration {
    /// The stream has not been registered.
    Fresh,
    /// The stream is registered under this token.
    Live(usize),
    /// The stream was registered under this token and has been taken out of
    /// the reactor.
    Retired(usize),
}

impl Registration {
    /// The token that the stream was given, if it has been registered. Once
    /// given it does not change.
    pub open spec fn token(&self) -> Option<usize> {
        match self {
            Registration::Fresh => None,
            Registration::Live(token) => Some(*token),
            Registration::Retired(token) => Some(*token),
        }
    }

    /// Whether the stream can be read and written through the reactor: it is
    /// registered, and the reactor knows its token.
    pub open spec fn usable(&self, reactor: &Reactor) -> bool {
        *self matches Registration::Live(token) && reactor@.contains_key(token)
    }

    /// Whether `polled` is what a suspended operation in direction `dir`
    /// yields after `attempt`, and `after` is the reactor that it leaves
    /// behind. On a stream that is not usable the operation is refused,
    /// whatever the attempt came to, and the reactor is not touched. On a
    /// usable stream a count and a final error are handed on, and the reactor
    /// is not touched either. An attempt that would block yields a wait: the
    /// stream's slot of that direction then holds `waker`, or the waker that
    /// it held before, and nothing else in the reactor has changed.
    pub open spec fn finished(
        &self,
        before: Reactor,
        after: Reactor,
        dir: Direction,
        attempt: Attempt,
        waker: Waker,
        polled: Result<IoPoll, ReactorError>,
    ) -> bool {
        &&& after.limit() == before.limit()
        &&& after.vacant() == before.vacant()
        &&& after@.dom() == before@.dom()
        &&& polled == if !self.usable(&before) {
            Err::<IoPoll, ReactorError>(ReactorError::NotRegistered)
        } else {
            match attempt {
                Attempt::Done(count) => Ok::<IoPoll, ReactorError>(IoPoll::Ready(count)),
                Attempt::Failed(error) => Ok::<IoPoll, ReactorError>(IoPoll::Failed(error)),
                Attempt::WouldBlock => Ok::<IoPoll, ReactorError>(IoPoll::Pending),
            }
        }
        &&& !(polled matches Ok(IoPoll::Pending)) ==> after@ == before@
        &&& polled matches Ok(IoPoll::Pending) ==> {
            let token = self.token().unwrap();
            &&& after@[token].differs_only_in(before@[token], dir)
            &&& after@[token].waker(dir) == Some(waker) || (before@[token].waker(dir).is_some()
                && after@[token].waker(dir) == before@[token].waker(dir))
            &&& forall|k: usize|
                k != token && before@.contains_key(k) ==> #[trigger] after@[k] == before@[k]
        }
    }

    /// The state of a stream that has not been registered.
    pub fn new() -> (registration: Registration)
        ensures
            registration == Registration::Fresh,
    {
        Registration::Fresh
    }

    /// The token that the stream was given, if it has been registered.
    pub fn get_token(&self) -> (token: Option<usize>)
        ensures
            token == self.token(),
    {
        match self {
            Registration::Fresh => None,
            Registration::Live(token) => Some(*token),
            Registration::Retired(token) => Some(*token),
        }
    }

    /// Registers the stream with the reactor and keeps the token that it is
    /// given. A stream that has a token is refused and keeps it.
    pub fn register(&mut self, reactor: &mut Reactor) -> (assigned: Result<usize, ReactorError>)
        requires
            old(reactor).wf(),
        ensures
            final(reactor).wf(),
            final(reactor).limit() == old(reactor).limit(),
            assigned == old(reactor).registration(old(self).token()),
            assigned.is_err() ==> *final(self) == *old(self) && final(reactor)@ == old(reactor)@
                && final(reactor).vacant() == old(reactor).vacant(),
            assigned matches Ok(token) ==> {
                &&& *final(self) == Registration::Live(token)
                &&& !old(reactor)@.contains_key(token)
                &&& final(reactor)@.dom() == old(reactor)@.dom().insert(token)
                &&& final(reactor)@[token].is_fresh(token)
                &&& forall|k: usize|
                    old(reactor)@.contains_key(k) ==> #[trigger] final(reactor)@[k] == old(
                        reactor,
                    )@[k]
            },
    {
        let assigned = reactor.register(self.get_token());
        if let Ok(token) = assigned {
            *self = Registration::Live(token);
        }
        assigned
    }

    /// Takes the stream out of the reactor. The stream keeps its token but
    /// can no longer be used; the reactor is free to hand the token out
    /// again. A stream that is not registered, or whose token the reactor
    /// does not know, is refused.
    pub fn deregister(&mut self, reactor: &mut Reactor) -> (done: Result<(), ReactorError>)
        requires
            old(reactor).wf(),
        ensures
            final(reactor).wf(),
            final(reactor).limit() == old(reactor).limit(),
            done == if old(self).usable(old(reactor)) {
                Ok::<(), ReactorError>(())
            } else {
                Err::<(), ReactorError>(ReactorError::NotRegistered)
            },
            done.is_err() ==> *final(self) == *old(self) && final(reactor)@ == old(reactor)@
                && final(reactor).vacant() == old(reactor).vacant(),
            done.is_ok() ==> {
                let token = old(self).token().unwrap();
                &&& *final(self) == Registration::Retired(token)
                &&& final(reactor).is_without(*old(reactor), token)
            },
    {
        match *self {
            Registration::Live(token) => match reactor.deregister(token) {
                Ok(()) => {
                    *self = Registration::Retired(token);
                    Ok(())
                },
                Err(_) => Err(ReactorError::NotRegistered),
            },
            _ => Err(ReactorError::NotRegistered),
        }
    }

    /// Says whether a read or write may be attempted: the token of a stream
    /// that is registered with the reactor, and a refusal for any other.
    pub fn begin(&self, reactor: &Reactor) -> (token: Result<usize, ReactorError>)
        ensures
            token == match *self {
                Registration::Live(t) if reactor@.contains_key(t) => Ok::<usize, ReactorError>(t),
                _ => Err::<usize, ReactorError>(ReactorError::NotRegistered),
            },
            token.is_ok() == self.usable(reactor),
    {
        match *self {
            Registration::Live(t) => if reactor.is_registered(t) {
                Ok(t)
            } else {
                Err(ReactorError::NotRegistered)
            },
            _ => Err(ReactorError::NotRegistered),
        }
    }

    /// Decides what a suspended operation in direction `dir` yields after an
    /// attempt on the socket. A stream that is not usable is refused first,
    /// whatever the attempt came to. Otherwise a count and a final error are
    /// handed on, and the reactor is not touched. An attempt that would block
    /// leaves the task's waker with the reactor, in the stream's slot of that
    /// direction, and the operation waits.
    pub fn finish(&self, reactor: &mut Reactor, dir: Direction, attempt: Attempt, waker: &Waker) -> (polled: Result<
        IoPoll,
        ReactorError,
    >)
        requires
            old(reactor).wf(),
        ensures
            final(reactor).wf(),
            self.finished(*old(reactor), *final(reactor), dir, attempt, *waker, polled),
    {
        let token = match self.begin(reactor) {
            Ok(token) => token,
            Err(refused) => {
                return Err(refused);
            },
        };
        match attempt {
            Attempt::Done(count) => Ok(IoPoll::Ready(count)),
            Attempt::Failed(error) => Ok(IoPoll::Failed(error)),
            Attempt::WouldBlock => match reactor.attach_waker(token, dir, waker) {
                Ok(()) => Ok(IoPoll::Pending),
                Err(refused) => Err(refused),
            },
        }
    }
}

} // verus!
