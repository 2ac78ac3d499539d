//! What holds of a suspended read or write, from the attempt on the socket
//! to the wake-up that ends the wait.

use vstd::prelude::*;
use std::task::Waker;
use crate::io::dispatch_laws::{lemma_wakeups_complete, lemma_waker_targeting};
use crate::io::event::{Direction, Event, Wakeup};
use crate::io::iosource::IoSource;
use crate::io::reactor::{delivered_from, fires, wakeups, wakeups_of, Delivery, Reactor, ReactorError};
use crate::io::tcp_stream::{Attempt, IoPoll, Registration};

verus! {

/// A stream that is not registered is refused. Whatever the attempt on the
/// socket came to, be it a count, an error or a wait, the operation yields
/// the refusal, no waker is kept, and the reactor is as it was.
pub proof fn lemma_unregistered_is_refused(
    stream: Registration,
    before: Reactor,
    after: Reactor,
    dir: Direction,
    attempt: Attempt,
    waker: Waker,
    polled: Result<IoPoll, ReactorError>,
)
    requires
        !stream.usable(&before),
        stream.finished(before, after, dir, attempt, waker, polled),
    ensures
        polled == Err::<IoPoll, ReactorError>(ReactorError::NotRegistered),
        after@ == before@,
{
}

/// On a registered stream a count is handed on as it came, and so is a
/// final error; the reactor is as it was.
pub proof fn lemma_outcome_is_handed_on(
    stream: Registration,
    before: Reactor,
    after: Reactor,
    dir: Direction,
    attempt: Attempt,
    waker: Waker,
    polled: Result<IoPoll, ReactorError>,
)
    requires
        stream.usable(&before),
        !(attempt is WouldBlock),
        stream.finished(before, after, dir, attempt, waker, polled),
    ensures
        attempt matches Attempt::Done(count) ==> polled == Ok::<IoPoll, ReactorError>(
            IoPoll::Ready(count),
        ),
        attempt matches Attempt::Failed(error) ==> polled == Ok::<IoPoll, ReactorError>(
            IoPoll::Failed(error),
        ),
        after@ == before@,
{
}

/// On a registered stream an attempt that would block yields a wait, not a
/// result. The stream's slot of the operation's direction then holds a
/// waker: the task's, or the one that the slot held before. The slot of the
/// other direction and every other record are as they were.
pub proof fn lemma_blocked_operation_waits(
    stream: Registration,
    before: Reactor,
    after: Reactor,
    dir: Direction,
    waker: Waker,
    polled: Result<IoPoll, ReactorError>,
)
    requires
        stream.usable(&before),
        stream.finished(before, after, dir, Attempt::WouldBlock, waker, polled),
    ensures
        polled == Ok::<IoPoll, ReactorError>(IoPoll::Pending),
        stream.usable(&after),
        after@[stream.token().unwrap()].waker(dir).is_some(),
        after@[stream.token().unwrap()].waker(dir) == Some(waker) || after@[stream.token().unwrap()].waker(
            dir,
        ) == before@[stream.token().unwrap()].waker(dir),
        after@[stream.token().unwrap()].differs_only_in(before@[stream.token().unwrap()], dir),
        forall|k: usize|
            k != stream.token().unwrap() && before@.contains_key(k) ==> #[trigger] after@[k]
                == before@[k],
{
    assert(after@.dom().contains(stream.token().unwrap()));
}

/// A task that waits on a stream is woken exactly when readiness fires for
/// its token. After an operation that would block, a batch of events leads
/// to the wake-up of the stream's slot exactly if it holds an event for the
/// stream's token that concerns the operation's direction.
pub proof fn lemma_blocked_operation_is_woken_by_readiness(
    stream: Registration,
    before: Reactor,
    after: Reactor,
    dir: Direction,
    waker: Waker,
    polled: Result<IoPoll, ReactorError>,
    events: Seq<Event>,
)
    requires
        stream.usable(&before),
        stream.finished(before, after, dir, Attempt::WouldBlock, waker, polled),
    ensures
        wakeups(after@, events).contains(
            Wakeup { token: stream.token().unwrap(), direction: dir },
        ) <==> exists|i: int|
            0 <= i < events.len() && (#[trigger] events[i]).token == stream.token().unwrap()
                && events[i].wakes(dir),
{
    lemma_blocked_operation_waits(stream, before, after, dir, waker, polled);
    lemma_waker_targeting(after@, stream.token().unwrap(), dir, events);
}

/// A waker that waits on a source is invoked once the source is reported
/// ready. Where a batch holds an event on which the table calls for a
/// wake-up, the log of the dispatch holds the delivery of that wake-up, and
/// the waker that was invoked for it is the one in the source's slot.
pub proof fn lemma_ready_source_is_woken(
    table: Map<usize, IoSource>,
    events: Seq<Event>,
    log: Seq<Delivery>,
    i: int,
    dir: Direction,
)
    requires
        wakeups_of(log) == wakeups(table, events),
        delivered_from(table, log),
        0 <= i < events.len(),
        fires(table, events[i], dir),
    ensures
        exists|j: int|
            0 <= j < log.len() && (#[trigger] log[j]).wakeup == (Wakeup {
                token: events[i].token,
                direction: dir,
            }) && Some(log[j].invoked.waker()) == table[events[i].token].waker(dir),
{
    let wakeup = Wakeup { token: events[i].token, direction: dir };
    lemma_wakeups_complete(table, events, i, dir);
    let j = choose|j: int| 0 <= j < wakeups_of(log).len() && wakeups_of(log)[j] == wakeup;
    assert(log[j].wakeup == wakeup);
}

} // verus!
