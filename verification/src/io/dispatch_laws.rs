//! What holds of the wake-ups that a batch of events calls for.

use vstd::prelude::*;
use crate::io::event::{Direction, Event, Wakeup};
use crate::io::iosource::IoSource;
use crate::io::reactor::{after_direction, after_event, fires, wakeups};

verus! {

/// Looking at one direction of an event adds the wake-up of that direction
/// where the table calls for it, and nothing else.
pub proof fn lemma_after_direction_contains(
    table: Map<usize, IoSource>,
    log: Seq<Wakeup>,
    ev: Event,
    dir: Direction,
    w: Wakeup,
)
    ensures
        after_direction(table, log, ev, dir).contains(w) <==> log.contains(w) || (w == (Wakeup {
            token: ev.token,
            direction: dir,
        }) && fires(table, ev, dir)),
{
    let wakeup = Wakeup { token: ev.token, direction: dir };
    let next = after_direction(table, log, ev, dir);
    if fires(table, ev, dir) && !log.contains(wakeup) {
        assert(next == log.push(wakeup));
        assert(next[log.len() as int] == wakeup);
        if log.contains(w) {
            let j = choose|j: int| 0 <= j < log.len() && log[j] == w;
            assert(next[j] == w);
        }
        if next.contains(w) {
            let j = choose|j: int| 0 <= j < next.len() && next[j] == w;
            if j < log.len() {
                assert(log[j] == w);
            }
        }
    }
}

/// Looking at one event adds the wake-ups that the table calls for on it,
/// and nothing else.
pub proof fn lemma_after_event_contains(
    table: Map<usize, IoSource>,
    log: Seq<Wakeup>,
    ev: Event,
    w: Wakeup,
)
    ensures
        after_event(table, log, ev).contains(w) <==> log.contains(w) || (w.token == ev.token
            && fires(table, ev, w.direction)),
{
    let mid = after_direction(table, log, ev, Direction::Read);
    lemma_after_direction_contains(table, log, ev, Direction::Read, w);
    lemma_after_direction_contains(table, mid, ev, Direction::Write, w);
}

/// Every wake-up that the table calls for on an event of the batch is made:
/// a waker that waits on a source is invoked before the batch is done, once
/// the source is reported ready in the waker's direction.
pub proof fn lemma_wakeups_complete(
    table: Map<usize, IoSource>,
    events: Seq<Event>,
    i: int,
    dir: Direction,
)
    requires
        0 <= i < events.len(),
        fires(table, events[i], dir),
    ensures
        wakeups(table, events).contains(Wakeup { token: events[i].token, direction: dir }),
    decreases events.len(),
{
    let w = Wakeup { token: events[i].token, direction: dir };
    let before = wakeups(table, events.drop_last());
    lemma_after_event_contains(table, before, events.last(), w);
    if i < events.len() - 1 {
        assert(events.drop_last()[i] == events[i]);
        lemma_wakeups_complete(table, events.drop_last(), i, dir);
    }
}

/// Every wake-up that is made is called for by an event of the batch: no
/// waker is invoked unless its source was reported ready in its direction.
pub proof fn lemma_wakeups_sound(table: Map<usize, IoSource>, events: Seq<Event>, w: Wakeup)
    requires
        wakeups(table, events).contains(w),
    ensures
        exists|i: int|
            0 <= i < events.len() && (#[trigger] events[i]).token == w.token && fires(
                table,
                events[i],
                w.direction,
            ),
    decreases events.len(),
{
    if events.len() == 0 {
        assert(wakeups(table, events) =~= Seq::<Wakeup>::empty());
        assert(false);
    } else {
        let before = wakeups(table, events.drop_last());
        lemma_after_event_contains(table, before, events.last(), w);
        if before.contains(w) {
            lemma_wakeups_sound(table, events.drop_last(), w);
            let i = choose|i: int|
                0 <= i < events.drop_last().len() && (#[trigger] events.drop_last()[i]).token
                    == w.token && fires(table, events.drop_last()[i], w.direction);
            assert(events[i] == events.drop_last()[i]);
        } else {
            let i = events.len() - 1;
            assert(events[i].token == w.token);
        }
    }
}

/// Looking at one direction of an event keeps a log free of repetitions.
pub proof fn lemma_after_direction_once(
    table: Map<usize, IoSource>,
    log: Seq<Wakeup>,
    ev: Event,
    dir: Direction,
)
    requires
        log.no_duplicates(),
    ensures
        after_direction(table, log, ev, dir).no_duplicates(),
{
    let wakeup = Wakeup { token: ev.token, direction: dir };
    let next = after_direction(table, log, ev, dir);
    if fires(table, ev, dir) && !log.contains(wakeup) {
        assert forall|a: int, b: int| 0 <= a < next.len() && 0 <= b < next.len() && a != b implies next[a]
            != next[b] by {
            if a < log.len() && b < log.len() {
                assert(log[a] != log[b]);
            } else if a < log.len() {
                assert(log[a] != wakeup);
            } else {
                assert(log[b] != wakeup);
            }
        }
    }
}

/// No waker is invoked twice in a batch.
pub proof fn lemma_wakeups_once(table: Map<usize, IoSource>, events: Seq<Event>)
    ensures
        wakeups(table, events).no_duplicates(),
    decreases events.len(),
{
    if events.len() > 0 {
        let before = wakeups(table, events.drop_last());
        lemma_wakeups_once(table, events.drop_last());
        lemma_after_direction_once(table, before, events.last(), Direction::Read);
        lemma_after_direction_once(
            table,
            after_direction(table, before, events.last(), Direction::Read),
            events.last(),
            Direction::Write,
        );
    }
}

/// A waker that waits on a source is invoked in a batch exactly if the batch
/// holds an event for the source's token that concerns the waker's
/// direction.
pub proof fn lemma_waker_targeting(
    table: Map<usize, IoSource>,
    token: usize,
    dir: Direction,
    events: Seq<Event>,
)
    requires
        table.contains_key(token),
        table[token].waker(dir).is_some(),
    ensures
        wakeups(table, events).contains(Wakeup { token, direction: dir }) <==> exists|i: int|
            0 <= i < events.len() && (#[trigger] events[i]).token == token && events[i].wakes(dir),
{
    let w = Wakeup { token, direction: dir };
    if wakeups(table, events).contains(w) {
        lemma_wakeups_sound(table, events, w);
    }
    if exists|i: int|
        0 <= i < events.len() && (#[trigger] events[i]).token == token && events[i].wakes(dir) {
        let i = choose|i: int|
            0 <= i < events.len() && (#[trigger] events[i]).token == token && events[i].wakes(dir);
        lemma_wakeups_complete(table, events, i, dir);
    }
}

} // verus!
