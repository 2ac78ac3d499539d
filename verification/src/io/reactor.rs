//! The reactor's table of registered sources.
//!
//! The table hands out tokens, keeps for each token the wakers of the tasks
//! that wait on the source, and turns a batch of readiness events into the
//! wake-ups that the batch calls for.

use vstd::prelude::*;
use slab::Slab;
use std::task::Waker;
use crate::io::error::{class_of, error_class, ErrorClass};
use crate::io::event::{Direction, Event, Wakeup};
use crate::io::iosource::IoSource;
use crate::io::waker::Invoked;
use crate::io::sources::{
    source_entries, source_slots, source_vacant, sources_get, sources_get_mut, sources_insert,
    sources_len, sources_try_remove, sources_vacant_key, sources_with_capacity,
};

verus! {

/// The number of sources that a reactor made by `Reactor::new` can hold.
pub const DEFAULT_SOURCES: usize = 1024;

/// The largest limit that a reactor can be made with.
pub const MAX_SOURCES: usize = 0xFFFF;

/// Why the reactor refused a request.
#[derive(Clone, Copy, Debug, PartialEq, Eq, Structural)]
pub enum ReactorError {
    /// The source already has a token.
    DoubleRegister,
    /// The table holds as many sources as it can.
    ResourceExhausted,
    /// No source is registered under the token.
    UnknownToken,
    /// The operation needs a registered source, and the source has no token
    /// or its token is no longer in the table.
    NotRegistered,
}

/// A wake-up that was made: which it was, and the record of the invocation.
pub struct Delivery {
    pub wakeup: Wakeup,
    pub invoked: Invoked,
}

/// The wake-ups that a log of deliveries stands for, in its order.
pub open spec fn wakeups_of(log: Seq<Delivery>) -> Seq<Wakeup> {
    Seq::new(log.len(), |i: int| log[i].wakeup)
}

/// Whether each delivery of the log is the invocation of the waker that the
/// table holds for its wake-up.
pub open spec fn delivered_from(table: Map<usize, IoSource>, log: Seq<Delivery>) -> bool {
    forall|i: int|
        0 <= i < log.len() ==> {
            let wakeup = (#[trigger] log[i]).wakeup;
            &&& table.contains_key(wakeup.token)
            &&& table[wakeup.token].waker(wakeup.direction) == Some(log[i].invoked.waker())
        }
}

/// What one pass of the reactor's loop came to.
pub enum Turn {
    /// The notifier reported events, and these wake-ups were made for them.
    Woke(Vec<Delivery>),
    /// The wait was interrupted: wait again.
    Retry,
    /// The notifier is lost: the reactor cannot go on.
    Fatal(std::io::Error),
}

/// Whether the table calls for a wake-up in direction `dir` on this event:
/// the event concerns the direction, and a waker waits there.
pub open spec fn fires(table: Map<usize, IoSource>, ev: Event, dir: Direction) -> bool {
    &&& ev.wakes(dir)
    &&& table.contains_key(ev.token)
    &&& table[ev.token].waker(dir).is_some()
}

/// The wake-ups made so far, after direction `dir` of one more event was
/// looked at: a waker that is called for and has not been invoked in this
/// batch is invoked.
pub open spec fn after_direction(
    table: Map<usize, IoSource>,
    log: Seq<Wakeup>,
    ev: Event,
    dir: Direction,
) -> Seq<Wakeup> {
    let wakeup = Wakeup { token: ev.token, direction: dir };
    if fires(table, ev, dir) && !log.contains(wakeup) {
        log.push(wakeup)
    } else {
        log
    }
}

/// The wake-ups made so far, after one more event was looked at: first its
/// read side, then its write side.
pub open spec fn after_event(table: Map<usize, IoSource>, log: Seq<Wakeup>, ev: Event) -> Seq<
    Wakeup,
> {
    after_direction(
        table,
        after_direction(table, log, ev, Direction::Read),
        ev,
        Direction::Write,
    )
}

/// The wake-ups that a batch of events calls for, in the order in which the
/// reactor makes them.
pub open spec fn wakeups(table: Map<usize, IoSource>, events: Seq<Event>) -> Seq<Wakeup>
    decreases events.len(),
{
    if events.len() == 0 {
        Seq::empty()
    } else {
        after_event(table, wakeups(table, events.drop_last()), events.last())
    }
}

/// The table of registered sources.
pub struct Reactor {
    sources: Slab<IoSource>,
    limit: usize,
}

impl Reactor {
    /// The registered sources, by token.
    pub closed spec fn view(&self) -> Map<usize, IoSource> {
        source_entries(self.sources)
    }

    /// The number of sources that the table can hold.
    pub closed spec fn limit(&self) -> usize {
        self.limit
    }

    /// The token that the next registration hands out.
    pub closed spec fn vacant(&self) -> usize {
        source_vacant(self.sources)
    }

    /// The table's invariant: it holds no more sources than its limit, and
    /// each record sits under its own token.
    pub closed spec fn wf(&self) -> bool {
        &&& self@.dom().finite()
        &&& self@.len() <= self.limit
        &&& source_slots(self.sources) <= self.limit
        &&& self.limit <= MAX_SOURCES
        &&& forall|k: usize| self@.contains_key(k) ==> (#[trigger] self@[k]).token() == k
    }

    /// Whether the table holds as many sources as it can.
    pub open spec fn is_full(&self) -> bool {
        self@.len() == self.limit()
    }

    /// What a registration answers: a source that holds a token is refused,
    /// a full table refuses, and otherwise the vacant token is handed out.
    pub open spec fn registration(&self, current: Option<usize>) -> Result<usize, ReactorError> {
        if current.is_some() {
            Err(ReactorError::DoubleRegister)
        } else if self.is_full() {
            Err(ReactorError::ResourceExhausted)
        } else {
            Ok(self.vacant())
        }
    }

    /// Whether `self` is `before` after the source under `token` was taken
    /// out: the record is gone, and its token is the vacant one.
    pub open spec fn is_without(&self, before: Reactor, token: usize) -> bool {
        &&& before@.contains_key(token)
        &&& self@ == before@.remove(token)
        &&& self.vacant() == token
        &&& self.limit() == before.limit()
    }

    /// A token that was given up is handed out again: after a source was
    /// taken out of the table, the next source to be registered gets its
    /// token.
    pub proof fn lemma_token_reassigned(&self, before: Reactor, token: usize)
        requires
            before.wf(),
            self.is_without(before, token),
        ensures
            self.registration(None) == Ok::<usize, ReactorError>(token),
            !self@.contains_key(token),
    {
        assert(self@.dom() =~= before@.dom().remove(token));
    }

    /// An empty table for up to `DEFAULT_SOURCES` sources.
    pub fn new() -> (reactor: Reactor)
        ensures
            reactor.wf(),
            reactor@ == Map::<usize, IoSource>::empty(),
            reactor.limit() == DEFAULT_SOURCES,
    {
        Reactor { sources: sources_with_capacity(DEFAULT_SOURCES), limit: DEFAULT_SOURCES }
    }

    /// An empty table for up to `limit` sources. A limit beyond
    /// `MAX_SOURCES` is refused.
    pub fn with_limit(limit: usize) -> (made: Result<Reactor, ReactorError>)
        ensures
            made.is_ok() == (limit <= MAX_SOURCES),
            made matches Err(refused) ==> refused == ReactorError::ResourceExhausted,
            made matches Ok(reactor) ==> {
                &&& reactor.wf()
                &&& reactor@ == Map::<usize, IoSource>::empty()
                &&& reactor.limit() == limit
            },
    {
        if limit > MAX_SOURCES {
            return Err(ReactorError::ResourceExhausted);
        }
        Ok(Reactor { sources: sources_with_capacity(limit), limit })
    }

    /// The number of registered sources.
    pub fn len(&self) -> (len: usize)
        ensures
            len == self@.len(),
    {
        sources_len(&self.sources)
    }

    /// Whether a source is registered under `token`.
    pub fn is_registered(&self, token: usize) -> (registered: bool)
        ensures
            registered == self@.contains_key(token),
    {
        sources_get(&self.sources, token).is_some()
    }

    /// The record of the source under `token`, if one is registered.
    pub fn source(&self, token: usize) -> (found: Option<&IoSource>)
        ensures
            found == if self@.contains_key(token) {
                Some(&self@[token])
            } else {
                None
            },
    {
        sources_get(&self.sources, token)
    }

    /// The token that the next registration hands out. No source is
    /// registered under it.
    pub fn next_token(&self) -> (token: usize)
        ensures
            token == self.vacant(),
            !self@.contains_key(token),
    {
        sources_vacant_key(&self.sources)
    }

    /// What `register` would answer for a source that holds `current`,
    /// without changing the table: the refusal, or the token that the source
    /// would get.
    pub fn check_register(&self, current: Option<usize>) -> (assigned: Result<usize, ReactorError>)
        requires
            self.wf(),
        ensures
            assigned == self.registration(current),
            assigned matches Ok(token) ==> !self@.contains_key(token),
    {
        if current.is_some() {
            return Err(ReactorError::DoubleRegister);
        }
        if sources_len(&self.sources) >= self.limit {
            return Err(ReactorError::ResourceExhausted);
        }
        Ok(sources_vacant_key(&self.sources))
    }

    /// Registers a source. `current` is the token that the source holds, if
    /// it has been registered before: such a source is refused. A table that
    /// is full refuses too. Otherwise the source gets the vacant token, and a
    /// record with both waker slots empty enters the table under it.
    pub fn register(&mut self, current: Option<usize>) -> (assigned: Result<usize, ReactorError>)
        requires
            old(self).wf(),
        ensures
            final(self).wf(),
            final(self).limit() == old(self).limit(),
            assigned == old(self).registration(current),
            assigned.is_err() ==> final(self)@ == old(self)@ && final(self).vacant() == old(
                self,
            ).vacant(),
            assigned matches Ok(token) ==> {
                &&& !old(self)@.contains_key(token)
                &&& final(self)@.dom() == old(self)@.dom().insert(token)
                &&& final(self)@[token].is_fresh(token)
                &&& forall|k: usize|
                    old(self)@.contains_key(k) ==> #[trigger] final(self)@[k] == old(self)@[k]
            },
    {
        if current.is_some() {
            return Err(ReactorError::DoubleRegister);
        }
        if sources_len(&self.sources) >= self.limit {
            return Err(ReactorError::ResourceExhausted);
        }
        let vacant = sources_vacant_key(&self.sources);
        let token = sources_insert(&mut self.sources, IoSource::new(vacant));
        assert(self@.dom() =~= old(self)@.dom().insert(token));
        Ok(token)
    }

    /// Takes a source out of the table. Its token becomes the vacant token,
    /// so the next registration hands it out again.
    pub fn deregister(&mut self, token: usize) -> (done: Result<(), ReactorError>)
        requires
            old(self).wf(),
        ensures
            final(self).wf(),
            final(self).limit() == old(self).limit(),
            done.is_ok() == old(self)@.contains_key(token),
            done.is_err() ==> done == Err::<(), ReactorError>(ReactorError::UnknownToken)
                && final(self)@ == old(self)@ && final(self).vacant() == old(self).vacant(),
            done.is_ok() ==> final(self).is_without(*old(self), token),
    {
        match sources_try_remove(&mut self.sources, token) {
            Some(_) => {
                assert(self@.dom() =~= old(self)@.dom().remove(token));
                Ok(())
            },
            None => {
                assert(self@ =~= old(self)@);
                Err(ReactorError::UnknownToken)
            },
        }
    }

    /// Says whether the interests of the source under `token` may be
    /// changed: they may where the source is registered.
    pub fn reregister(&self, token: usize) -> (done: Result<(), ReactorError>)
        ensures
            done == if self@.contains_key(token) {
                Ok::<(), ReactorError>(())
            } else {
                Err::<(), ReactorError>(ReactorError::UnknownToken)
            },
    {
        if self.is_registered(token) {
            Ok(())
        } else {
            Err(ReactorError::UnknownToken)
        }
    }

    /// Makes sure that the task of `waker` is woken when the source under
    /// `token` becomes ready in direction `dir`. An empty slot takes a copy
    /// of `waker`; a slot that holds a waker keeps it where that waker is
    /// known to wake the same task, and takes a copy of `waker` otherwise.
    /// Nothing else in the table changes.
    pub fn attach_waker(&mut self, token: usize, dir: Direction, waker: &Waker) -> (done: Result<
        (),
        ReactorError,
    >)
        requires
            old(self).wf(),
        ensures
            final(self).wf(),
            final(self).limit() == old(self).limit(),
            final(self).vacant() == old(self).vacant(),
            final(self)@.dom() == old(self)@.dom(),
            done == if old(self)@.contains_key(token) {
                Ok::<(), ReactorError>(())
            } else {
                Err::<(), ReactorError>(ReactorError::NotRegistered)
            },
            done.is_err() ==> final(self)@ == old(self)@,
            done.is_ok() ==> {
                let before = old(self)@[token];
                let after = final(self)@[token];
                &&& after.differs_only_in(before, dir)
                &&& after.waker(dir) == Some(*waker) || (before.waker(dir).is_some()
                    && after.waker(dir) == before.waker(dir))
                &&& forall|k: usize|
                    k != token && old(self)@.contains_key(k) ==> #[trigger] final(self)@[k] == old(
                        self,
                    )@[k]
            },
    {
        match sources_get_mut(&mut self.sources, token) {
            Some(source) => {
                source.attach(dir, waker);
                assert(self@.dom() =~= old(self)@.dom());
                Ok(())
            },
            None => {
                assert(self@ =~= old(self)@);
                Err(ReactorError::NotRegistered)
            },
        }
    }

    /// Looks at direction `dir` of one event: where the table calls for a
    /// wake-up that this batch has not made yet, the waker is invoked and the
    /// delivery is written to the log.
    fn wake_direction(&self, ev: &Event, dir: Direction, log: &mut Vec<Delivery>)
        requires
            delivered_from(self@, old(log)@),
        ensures
            wakeups_of(final(log)@) == after_direction(self@, wakeups_of(old(log)@), *ev, dir),
            delivered_from(self@, final(log)@),
    {
        let wakeup = Wakeup { token: ev.token, direction: dir };
        if ev.concerns(dir) && !logged(log, wakeup) {
            let woke = match sources_get(&self.sources, ev.token) {
                Some(source) => source.wake(dir),
                None => None,
            };
            if let Some(invoked) = woke {
                log.push(Delivery { wakeup, invoked });
                assert(wakeups_of(log@) =~= wakeups_of(old(log)@).push(wakeup));
            }
        }
    }

    /// Invokes the wakers that a batch of events calls for, event by event in
    /// the order of the batch, the read side of an event before its write
    /// side. A waker is invoked once in a batch, however many events call for
    /// it. Events for tokens that are not in the table are passed over. The
    /// result lists the wake-ups in the order in which they were made, each
    /// with the record of the invocation of the waker that the table holds
    /// for it.
    pub fn dispatch(&self, events: &Vec<Event>) -> (woken: Vec<Delivery>)
        ensures
            wakeups_of(woken@) == wakeups(self@, events@),
            delivered_from(self@, woken@),
    {
        let mut log: Vec<Delivery> = Vec::new();
        let mut i: usize = 0;
        assert(wakeups_of(log@) =~= wakeups(self@, events@.take(0)));
        while i < events.len()
            invariant
                i <= events.len(),
                wakeups_of(log@) == wakeups(self@, events@.take(i as int)),
                delivered_from(self@, log@),
            decreases events.len() - i,
        {
            let ev = events[i];
            assert(events@.take(i + 1).drop_last() =~= events@.take(i as int));
            assert(events@.take(i + 1).last() == ev);
            self.wake_direction(&ev, Direction::Read, &mut log);
            self.wake_direction(&ev, Direction::Write, &mut log);
            i = i + 1;
        }
        assert(events@.take(i as int) =~= events@);
        log
    }

    /// One pass of the reactor's loop after the notifier returned `polled`,
    /// whose error, if any, is of class `class`. A batch of events is
    /// dispatched. An interrupted wait is to be repeated. Any other error is
    /// fatal.
    pub fn turn_classified(&self, polled: Result<Vec<Event>, std::io::Error>, class: ErrorClass) -> (turn: Turn)
        ensures
            match polled {
                Ok(events) => turn matches Turn::Woke(woken) && wakeups_of(woken@) == wakeups(
                    self@,
                    events@,
                ) && delivered_from(self@, woken@),
                Err(error) => if class == ErrorClass::Interrupted {
                    turn matches Turn::Retry
                } else {
                    turn matches Turn::Fatal(fatal) && fatal == error
                },
            },
    {
        match polled {
            Ok(events) => Turn::Woke(self.dispatch(&events)),
            Err(error) => match class {
                ErrorClass::Interrupted => Turn::Retry,
                _ => Turn::Fatal(error),
            },
        }
    }

    /// One pass of the reactor's loop after the notifier returned `polled`.
    /// A batch of events is dispatched. An error whose kind says that the
    /// wait was interrupted ends in a repeated wait; any other error is
    /// fatal.
    pub fn turn(&self, polled: Result<Vec<Event>, std::io::Error>) -> (turn: Turn)
        ensures
            match polled {
                Ok(events) => turn matches Turn::Woke(woken) && wakeups_of(woken@) == wakeups(
                    self@,
                    events@,
                ) && delivered_from(self@, woken@),
                Err(error) => if error_class(error) == ErrorClass::Interrupted {
                    turn matches Turn::Retry
                } else {
                    turn matches Turn::Fatal(fatal) && fatal == error
                },
            },
    {
        let class = match &polled {
            Ok(_) => ErrorClass::Other,
            Err(error) => class_of(error),
        };
        self.turn_classified(polled, class)
    }
}

/// Whether the log holds a delivery of the wake-up.
fn logged(log: &Vec<Delivery>, wakeup: Wakeup) -> (found: bool)
    ensures
        found == wakeups_of(log@).contains(wakeup),
{
    let mut i: usize = 0;
    while i < log.len()
        invariant
            i <= log.len(),
            forall|j: int| 0 <= j < i ==> wakeups_of(log@)[j] != wakeup,
        decreases log.len() - i,
    {
        if log[i].wakeup == wakeup {
            assert(wakeups_of(log@)[i as int] == wakeup);
            return true;
        }
        i = i + 1;
    }
    false
}

} // verus!
