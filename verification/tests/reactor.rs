use mini_runtime::io::event::{Direction, Event, Wakeup};
use mini_runtime::io::reactor::{Delivery, Reactor, ReactorError, Turn, DEFAULT_SOURCES, MAX_SOURCES};
use std::sync::atomic::{AtomicUsize, Ordering};
use std::sync::Arc;
use std::task::{Wake, Waker};

struct Counter {
    wakes: AtomicUsize,
}

impl Wake for Counter {
    fn wake(self: Arc<Self>) {
        self.wakes.fetch_add(1, Ordering::SeqCst);
    }
}

fn counting_waker() -> (Arc<Counter>, Waker) {
    let counter = Arc::new(Counter { wakes: AtomicUsize::new(0) });
    let waker = Waker::from(counter.clone());
    (counter, waker)
}

fn count(counter: &Arc<Counter>) -> usize {
    counter.wakes.load(Ordering::SeqCst)
}

fn wakeups(log: Vec<Delivery>) -> Vec<Wakeup> {
    log.into_iter().map(|delivery| delivery.wakeup).collect()
}

fn event(token: usize, readable: bool, writable: bool) -> Event {
    Event { token, readable, writable, read_closed: false, write_closed: false }
}

#[test]
fn tokens_are_handed_out_from_zero() {
    let mut reactor = Reactor::new();
    assert_eq!(reactor.next_token(), 0);
    assert_eq!(reactor.register(None), Ok(0));
    assert_eq!(reactor.register(None), Ok(1));
    assert_eq!(reactor.register(None), Ok(2));
    assert_eq!(reactor.len(), 3);
    assert!(reactor.is_registered(1));
    assert!(!reactor.is_registered(3));
}

#[test]
fn a_new_record_has_its_token_and_no_wakers() {
    let mut reactor = Reactor::new();
    reactor.register(None).unwrap();
    let token = reactor.register(None).unwrap();
    let source = reactor.source(token).unwrap();
    assert_eq!(source.get_token(), token);
    assert!(!source.has_wakers());
    assert!(source.get_read_waker().is_none());
    assert!(source.get_write_waker().is_none());
}

#[test]
fn a_source_with_a_token_is_refused() {
    let mut reactor = Reactor::new();
    let token = reactor.register(None).unwrap();
    assert_eq!(reactor.register(Some(token)), Err(ReactorError::DoubleRegister));
    assert_eq!(reactor.register(Some(99)), Err(ReactorError::DoubleRegister));
    assert_eq!(reactor.len(), 1);
}

#[test]
fn a_full_table_refuses() {
    let mut reactor = Reactor::with_limit(2).unwrap_or_else(|e| panic!("{:?}", e));
    assert_eq!(reactor.register(None), Ok(0));
    assert_eq!(reactor.register(None), Ok(1));
    assert_eq!(reactor.register(None), Err(ReactorError::ResourceExhausted));
    assert_eq!(reactor.len(), 2);
    assert_eq!(reactor.deregister(0), Ok(()));
    assert_eq!(reactor.register(None), Ok(0));
}

#[test]
fn the_default_table_holds_its_limit_and_no_more() {
    let mut reactor = Reactor::new();
    for expected in 0..DEFAULT_SOURCES {
        assert_eq!(reactor.register(None), Ok(expected));
    }
    assert_eq!(reactor.register(None), Err(ReactorError::ResourceExhausted));
}

#[test]
fn a_token_given_up_is_handed_out_again() {
    let mut reactor = Reactor::new();
    let first = reactor.register(None).unwrap();
    let second = reactor.register(None).unwrap();
    assert_eq!(reactor.deregister(first), Ok(()));
    assert!(!reactor.is_registered(first));
    assert!(reactor.is_registered(second));
    assert_eq!(reactor.next_token(), first);
    assert_eq!(reactor.register(None), Ok(first));
}

#[test]
fn an_unknown_token_cannot_be_given_up_or_changed() {
    let mut reactor = Reactor::new();
    let token = reactor.register(None).unwrap();
    assert_eq!(reactor.deregister(token + 1), Err(ReactorError::UnknownToken));
    assert_eq!(reactor.reregister(token + 1), Err(ReactorError::UnknownToken));
    assert_eq!(reactor.reregister(token), Ok(()));
    assert_eq!(reactor.deregister(token), Ok(()));
    assert_eq!(reactor.deregister(token), Err(ReactorError::UnknownToken));
    assert_eq!(reactor.reregister(token), Err(ReactorError::UnknownToken));
}

#[test]
fn a_waker_needs_a_registered_source() {
    let mut reactor = Reactor::new();
    let (_counter, waker) = counting_waker();
    assert_eq!(
        reactor.attach_waker(0, Direction::Read, &waker),
        Err(ReactorError::NotRegistered)
    );
}

#[test]
fn a_waker_is_kept_in_the_slot_of_its_direction() {
    let mut reactor = Reactor::new();
    let token = reactor.register(None).unwrap();
    let (_counter, waker) = counting_waker();
    assert_eq!(reactor.attach_waker(token, Direction::Write, &waker), Ok(()));
    let source = reactor.source(token).unwrap();
    assert!(source.has_wakers());
    assert!(source.get_read_waker().is_none());
    assert!(source.get_write_waker().as_ref().unwrap().will_wake(&waker));
}

#[test]
fn a_waker_of_another_task_takes_the_slot() {
    let mut reactor = Reactor::new();
    let token = reactor.register(None).unwrap();
    let (first, first_waker) = counting_waker();
    let (second, second_waker) = counting_waker();
    reactor.attach_waker(token, Direction::Read, &first_waker).unwrap();
    reactor.attach_waker(token, Direction::Read, &second_waker).unwrap();
    let woken = wakeups(reactor.dispatch(&vec![event(token, true, false)]));
    assert_eq!(woken, vec![Wakeup { token, direction: Direction::Read }]);
    assert_eq!(count(&first), 0);
    assert_eq!(count(&second), 1);
}

#[test]
fn a_waker_of_the_same_task_leaves_the_slot_working() {
    let mut reactor = Reactor::new();
    let token = reactor.register(None).unwrap();
    let (counter, waker) = counting_waker();
    reactor.attach_waker(token, Direction::Read, &waker).unwrap();
    reactor.attach_waker(token, Direction::Read, &waker.clone()).unwrap();
    reactor.dispatch(&vec![event(token, true, false)]);
    assert_eq!(count(&counter), 1);
}

#[test]
fn readiness_wakes_the_waker_of_its_direction_only() {
    let mut reactor = Reactor::new();
    let token = reactor.register(None).unwrap();
    let (reader, read_waker) = counting_waker();
    let (writer, write_waker) = counting_waker();
    reactor.attach_waker(token, Direction::Read, &read_waker).unwrap();
    reactor.attach_waker(token, Direction::Write, &write_waker).unwrap();
    let woken = wakeups(reactor.dispatch(&vec![event(token, true, false)]));
    assert_eq!(woken, vec![Wakeup { token, direction: Direction::Read }]);
    assert_eq!((count(&reader), count(&writer)), (1, 0));
    let woken = wakeups(reactor.dispatch(&vec![event(token, false, true)]));
    assert_eq!(woken, vec![Wakeup { token, direction: Direction::Write }]);
    assert_eq!((count(&reader), count(&writer)), (1, 1));
}

#[test]
fn a_closed_half_wakes_both_directions() {
    let mut reactor = Reactor::new();
    let token = reactor.register(None).unwrap();
    let (reader, read_waker) = counting_waker();
    let (writer, write_waker) = counting_waker();
    reactor.attach_waker(token, Direction::Read, &read_waker).unwrap();
    reactor.attach_waker(token, Direction::Write, &write_waker).unwrap();
    let closed = Event {
        token,
        readable: false,
        writable: false,
        read_closed: true,
        write_closed: false,
    };
    let woken = wakeups(reactor.dispatch(&vec![closed]));
    assert_eq!(
        woken,
        vec![
            Wakeup { token, direction: Direction::Read },
            Wakeup { token, direction: Direction::Write },
        ]
    );
    assert_eq!((count(&reader), count(&writer)), (1, 1));
}

#[test]
fn a_waker_is_invoked_once_in_a_batch() {
    let mut reactor = Reactor::new();
    let token = reactor.register(None).unwrap();
    let (counter, waker) = counting_waker();
    reactor.attach_waker(token, Direction::Read, &waker).unwrap();
    let batch = vec![event(token, true, false), event(token, true, true), event(token, true, false)];
    let woken = wakeups(reactor.dispatch(&batch));
    assert_eq!(woken, vec![Wakeup { token, direction: Direction::Read }]);
    assert_eq!(count(&counter), 1);
    // the next batch wakes it again
    reactor.dispatch(&batch);
    assert_eq!(count(&counter), 2);
}

#[test]
fn wakers_are_invoked_in_the_order_of_the_events() {
    let mut reactor = Reactor::new();
    let a = reactor.register(None).unwrap();
    let b = reactor.register(None).unwrap();
    let c = reactor.register(None).unwrap();
    let (_ca, wa) = counting_waker();
    let (_cb, wb) = counting_waker();
    let (_cc, wc) = counting_waker();
    reactor.attach_waker(a, Direction::Read, &wa).unwrap();
    reactor.attach_waker(b, Direction::Write, &wb).unwrap();
    reactor.attach_waker(c, Direction::Read, &wc).unwrap();
    let batch = vec![event(c, true, true), event(a, true, false), event(b, true, true)];
    assert_eq!(
        wakeups(reactor.dispatch(&batch)),
        vec![
            Wakeup { token: c, direction: Direction::Read },
            Wakeup { token: a, direction: Direction::Read },
            Wakeup { token: b, direction: Direction::Write },
        ]
    );
}

#[test]
fn events_without_a_waiting_waker_wake_nobody() {
    let mut reactor = Reactor::new();
    let token = reactor.register(None).unwrap();
    let (counter, waker) = counting_waker();
    reactor.attach_waker(token, Direction::Read, &waker).unwrap();
    // an unknown token, a direction nobody waits on, and an empty event
    let batch = vec![event(token + 5, true, true), event(token, false, true), event(token, false, false)];
    assert_eq!(wakeups(reactor.dispatch(&batch)), vec![]);
    assert_eq!(wakeups(reactor.dispatch(&vec![])), vec![]);
    assert_eq!(count(&counter), 0);
}

#[test]
fn a_waker_of_a_source_that_left_is_not_invoked() {
    let mut reactor = Reactor::new();
    let token = reactor.register(None).unwrap();
    let (counter, waker) = counting_waker();
    reactor.attach_waker(token, Direction::Read, &waker).unwrap();
    reactor.deregister(token).unwrap();
    assert_eq!(wakeups(reactor.dispatch(&vec![event(token, true, true)])), vec![]);
    assert_eq!(count(&counter), 0);
    // the token's next holder starts without wakers
    assert_eq!(reactor.register(None), Ok(token));
    assert!(!reactor.source(token).unwrap().has_wakers());
}

#[test]
fn a_turn_dispatches_the_events_it_is_given() {
    let mut reactor = Reactor::new();
    let token = reactor.register(None).unwrap();
    let (counter, waker) = counting_waker();
    reactor.attach_waker(token, Direction::Read, &waker).unwrap();
    match reactor.turn(Ok(vec![event(token, true, false)])) {
        Turn::Woke(woken) => {
            assert_eq!(wakeups(woken), vec![Wakeup { token, direction: Direction::Read }])
        }
        _ => panic!("a batch of events is dispatched"),
    }
    assert_eq!(count(&counter), 1);
}

#[test]
fn an_interrupted_wait_is_repeated() {
    let reactor = Reactor::new();
    let interrupted = std::io::Error::from(std::io::ErrorKind::Interrupted);
    assert!(matches!(reactor.turn(Err(interrupted)), Turn::Retry));
}

#[test]
fn any_other_error_of_the_notifier_is_fatal() {
    let reactor = Reactor::new();
    let broken = std::io::Error::from(std::io::ErrorKind::PermissionDenied);
    match reactor.turn(Err(broken)) {
        Turn::Fatal(error) => assert_eq!(error.kind(), std::io::ErrorKind::PermissionDenied),
        _ => panic!("the notifier is lost"),
    }
    let blocked = std::io::Error::from(std::io::ErrorKind::WouldBlock);
    assert!(matches!(reactor.turn(Err(blocked)), Turn::Fatal(_)));
}

#[test]
fn a_delivery_records_the_waker_that_the_table_holds() {
    let mut reactor = Reactor::new();
    let token = reactor.register(None).unwrap();
    let (reader, read_waker) = counting_waker();
    let (writer, write_waker) = counting_waker();
    reactor.attach_waker(token, Direction::Read, &read_waker).unwrap();
    reactor.attach_waker(token, Direction::Write, &write_waker).unwrap();
    let woken = reactor.dispatch(&vec![event(token, true, true)]);
    assert_eq!(woken.len(), 2);
    assert_eq!(woken[0].wakeup, Wakeup { token, direction: Direction::Read });
    assert!(woken[0].invoked.get_waker().will_wake(&read_waker));
    assert_eq!(woken[1].wakeup, Wakeup { token, direction: Direction::Write });
    assert!(woken[1].invoked.get_waker().will_wake(&write_waker));
    assert_eq!((count(&reader), count(&writer)), (1, 1));
}

#[test]
fn a_table_is_made_for_no_more_than_the_largest_limit() {
    assert!(Reactor::with_limit(0).is_ok());
    assert!(Reactor::with_limit(MAX_SOURCES).is_ok());
    assert!(matches!(
        Reactor::with_limit(MAX_SOURCES + 1),
        Err(ReactorError::ResourceExhausted)
    ));
    let mut empty = Reactor::with_limit(0).unwrap_or_else(|e| panic!("{:?}", e));
    assert_eq!(empty.register(None), Err(ReactorError::ResourceExhausted));
}
