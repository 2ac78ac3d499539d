//! The record that the reactor keeps for one registered source.

use vstd::prelude::*;
use std::task::Waker;
use crate::io::event::{Direction, Event};
use crate::io::waker::{clone_waker, invoke, will_wake, Invoked};

verus! {

/// The invocations that an event led to on one source, by direction.
pub struct Woken {
    pub read: Option<Invoked>,
    pub write: Option<Invoked>,
}

/// Whether `woke` is the record of invoking the waker in `slot`, or nothing
/// where the slot is empty.
pub open spec fn is_invocation_of(woke: Option<Invoked>, slot: Option<Waker>) -> bool {
    match slot {
        Some(waker) => woke matches Some(done) && done.waker() == waker,
        None => woke.is_none(),
    }
}

/// One registered source: its token and a waker slot for each direction.
pub struct IoSource {
    read_waker: Option<Waker>,
    write_waker: Option<Waker>,
    token: usize,
}

impl IoSource {
    /// The token under which the source is registered.
    pub closed spec fn token(&self) -> usize {
        self.token
    }

    /// The waker waiting for the source to become readable, if any.
    pub closed spec fn read_waker(&self) -> Option<Waker> {
        self.read_waker
    }

    /// The waker waiting for the source to become writable, if any.
    pub closed spec fn write_waker(&self) -> Option<Waker> {
        self.write_waker
    }

    /// The waker waiting on the source in direction `dir`, if any.
    pub open spec fn waker(&self, dir: Direction) -> Option<Waker> {
        match dir {
            Direction::Read => self.read_waker(),
            Direction::Write => self.write_waker(),
        }
    }

    /// Whether the record is the one that registration makes for `token`.
    pub open spec fn is_fresh(&self, token: usize) -> bool {
        &&& self.token() == token
        &&& self.read_waker().is_none()
        &&& self.write_waker().is_none()
    }

    /// Whether `self` is `before` but for the slot of direction `dir`.
    pub open spec fn differs_only_in(&self, before: IoSource, dir: Direction) -> bool {
        &&& self.token() == before.token()
        &&& match dir {
            Direction::Read => self.write_waker() == before.write_waker(),
            Direction::Write => self.read_waker() == before.read_waker(),
        }
    }

    /// A record for `token` with both waker slots empty.
    pub fn new(token: usize) -> (source: IoSource)
        ensures
            source.is_fresh(token),
    {
        IoSource { read_waker: None, write_waker: None, token }
    }

    /// The token under which the source is registered.
    pub fn get_token(&self) -> (token: usize)
        ensures
            token == self.token(),
    {
        self.token
    }

    /// Whether a waker waits on the source in either direction.
    pub fn has_wakers(&self) -> (any: bool)
        ensures
            any == (self.read_waker().is_some() || self.write_waker().is_some()),
    {
        self.read_waker.is_some() || self.write_waker.is_some()
    }

    /// Invokes the waker of direction `dir`, if the slot holds one, and hands
    /// out the record of the invocation.
    pub fn wake(&self, dir: Direction) -> (woke: Option<Invoked>)
        ensures
            is_invocation_of(woke, self.waker(dir)),
    {
        let slot = match dir {
            Direction::Read => &self.read_waker,
            Direction::Write => &self.write_waker,
        };
        match slot {
            Some(waker) => Some(invoke(clone_waker(waker))),
            None => None,
        }
    }

    /// Invokes each waker that the event concerns: the read waker where the
    /// source became readable, the write waker where it became writable, and
    /// both where one of its halves was closed. A slot that is empty is
    /// passed over. The records of the invocations are handed out.
    pub fn wake_with_event(&self, ev: &Event) -> (woken: Woken)
        ensures
            is_invocation_of(
                woken.read,
                if ev.wakes(Direction::Read) {
                    self.read_waker()
                } else {
                    None
                },
            ),
            is_invocation_of(
                woken.write,
                if ev.wakes(Direction::Write) {
                    self.write_waker()
                } else {
                    None
                },
            ),
    {
        let read = if ev.concerns(Direction::Read) {
            self.wake(Direction::Read)
        } else {
            None
        };
        let write = if ev.concerns(Direction::Write) {
            self.wake(Direction::Write)
        } else {
            None
        };
        Woken { read, write }
    }

    /// Stores a copy of `waker` in the read slot, whatever was there.
    pub fn change_read_waker(&mut self, waker: &Waker)
        ensures
            final(self).read_waker() == Some(*waker),
            final(self).differs_only_in(*old(self), Direction::Read),
    {
        self.read_waker = Some(clone_waker(waker));
    }

    /// Stores a copy of `waker` in the write slot, whatever was there.
    pub fn change_write_waker(&mut self, waker: &Waker)
        ensures
            final(self).write_waker() == Some(*waker),
            final(self).differs_only_in(*old(self), Direction::Write),
    {
        self.write_waker = Some(clone_waker(waker));
    }

    /// The waker waiting for the source to become readable, if any.
    pub fn get_read_waker(&self) -> (slot: &Option<Waker>)
        ensures
            *slot == self.read_waker(),
    {
        &self.read_waker
    }

    /// The waker waiting for the source to become writable, if any.
    pub fn get_write_waker(&self) -> (slot: &Option<Waker>)
        ensures
            *slot == self.write_waker(),
    {
        &self.write_waker
    }

    /// Puts `waker` in the slot of direction `dir`, unless the slot holds a
    /// waker and `same_task` says that it wakes the task that `waker` wakes:
    /// then the slot keeps what it holds.
    pub fn install(&mut self, dir: Direction, waker: &Waker, same_task: bool)
        ensures
            final(self).waker(dir) == if same_task && old(self).waker(dir).is_some() {
                old(self).waker(dir)
            } else {
                Some(*waker)
            },
            final(self).differs_only_in(*old(self), dir),
    {
        let keep = same_task && match dir {
            Direction::Read => self.read_waker.is_some(),
            Direction::Write => self.write_waker.is_some(),
        };
        if !keep {
            match dir {
                Direction::Read => self.change_read_waker(waker),
                Direction::Write => self.change_write_waker(waker),
            }
        }
    }

    /// Makes sure that the slot of direction `dir` wakes the task of `waker`.
    /// An empty slot takes a copy of `waker`. A slot that holds a waker keeps
    /// it where that waker is known to wake the same task, and takes a copy
    /// of `waker` otherwise.
    pub fn attach(&mut self, dir: Direction, waker: &Waker)
        ensures
            final(self).waker(dir) == Some(*waker) || (old(self).waker(dir).is_some()
                && final(self).waker(dir) == old(self).waker(dir)),
            final(self).differs_only_in(*old(self), dir),
    {
        let slot = match dir {
            Direction::Read => &self.read_waker,
            Direction::Write => &self.write_waker,
        };
        let same_task = match slot {
            Some(current) => will_wake(current, waker),
            None => false,
        };
        self.install(dir, waker, same_task);
    }
}

} // verus!
