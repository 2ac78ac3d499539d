//! Readiness as plain values: directions, interests and events.

use vstd::prelude::*;

verus! {

/// One of the two directions in which a source can become ready.
#[derive(Clone, Copy, Debug, PartialEq, Eq, Structural)]
pub enum Direction {
    Read,
    Write,
}

/// The directions for which a source asks to be watched. At least one of the
/// two is set.
#[derive(Clone, Copy, Debug, PartialEq, Eq, Structural)]
pub struct Interest {
    readable: bool,
    writable: bool,
}

impl Interest {
    /// Whether the source is watched for becoming readable.
    pub closed spec fn readable(&self) -> bool {
        self.readable
    }

    /// Whether the source is watched for becoming writable.
    pub closed spec fn writable(&self) -> bool {
        self.writable
    }

    #[verifier::type_invariant]
    spec fn some_direction(&self) -> bool {
        self.readable || self.writable
    }

    /// Interest in becoming readable only.
    pub fn read() -> (interest: Interest)
        ensures
            interest.readable(),
            !interest.writable(),
    {
        Interest { readable: true, writable: false }
    }

    /// Interest in becoming writable only.
    pub fn write() -> (interest: Interest)
        ensures
            !interest.readable(),
            interest.writable(),
    {
        Interest { readable: false, writable: true }
    }

    /// Interest in both directions.
    pub fn both() -> (interest: Interest)
        ensures
            interest.readable(),
            interest.writable(),
    {
        Interest { readable: true, writable: true }
    }

    /// The interest of a connection that says whether it wants to read and
    /// whether it wants to write. It is watched for writing exactly if it
    /// wants to write, and for reading if it wants to read or wants nothing.
    pub fn from_wants(wants_read: bool, wants_write: bool) -> (interest: Interest)
        ensures
            interest.writable() == wants_write,
            interest.readable() == (wants_read || !wants_write),
    {
        if wants_read && wants_write {
            Interest::both()
        } else if wants_write {
            Interest::write()
        } else {
            Interest::read()
        }
    }

    /// Whether the source is watched for becoming readable.
    pub fn is_readable(&self) -> (readable: bool)
        ensures
            readable == self.readable(),
            readable || self.writable(),
    {
        proof {
            use_type_invariant(self);
        }
        self.readable
    }

    /// Whether the source is watched for becoming writable.
    pub fn is_writable(&self) -> (writable: bool)
        ensures
            writable == self.writable(),
            writable || self.readable(),
    {
        proof {
            use_type_invariant(self);
        }
        self.writable
    }

}

/// What the notifier reports of one source after a wait.
#[derive(Clone, Copy, Debug, PartialEq, Eq, Structural)]
pub struct Event {
    /// The token under which the source was registered.
    pub token: usize,
    /// The source can be read.
    pub readable: bool,
    /// The source can be written.
    pub writable: bool,
    /// The reading half of the source was closed.
    pub read_closed: bool,
    /// The writing half of the source was closed.
    pub write_closed: bool,
}

impl Event {
    /// Whether the event is a reason to wake whoever waits on the source in
    /// direction `dir`: the source is ready in that direction, or one of its
    /// halves was closed, which concerns both directions.
    pub open spec fn wakes(&self, dir: Direction) -> bool {
        ||| self.read_closed
        ||| self.write_closed
        ||| match dir {
            Direction::Read => self.readable,
            Direction::Write => self.writable,
        }
    }

    /// Whether the event is a reason to wake whoever waits on the source in
    /// direction `dir`.
    pub fn concerns(&self, dir: Direction) -> (wakes: bool)
        ensures
            wakes == self.wakes(dir),
    {
        self.read_closed || self.write_closed || match dir {
            Direction::Read => self.readable,
            Direction::Write => self.writable,
        }
    }
}

/// A waker that was invoked: the source it waited on and in which direction.
#[derive(Clone, Copy, Debug, PartialEq, Eq, Structural)]
pub struct Wakeup {
    pub token: usize,
    pub direction: Direction,
}

} // verus!
