use std::sync::{Arc, Mutex};
use std::task::{Poll, Wake, Waker};

use lamp_runtime::cell::ObservableCell;
use lamp_runtime::emitter::EventTarget;

struct Counter(Mutex<usize>);

impl Wake for Counter {
    fn wake(self: Arc<Self>) {
        *self.0.lock().unwrap() += 1;
    }
}

fn noop_waker() -> Waker {
    Waker::from(Arc::new(Counter(Mutex::new(0))))
}

#[test]
fn new_starts_with_initial_value() {
    let cell = ObservableCell::new(42);
    assert_eq!(cell.get(), &42);
}

#[test]
fn set_updates_stored_value() {
    let mut cell = ObservableCell::new(10);
    cell.set(20, &mut Vec::new());
    assert_eq!(cell.get(), &20);
}

#[test]
fn subscriber_is_pending_until_value_changes() {
    let mut cell = ObservableCell::new(0);
    let mut stream = cell.subscribe();

    assert!(matches!(stream.poll_next(cell.event(), noop_waker()), Poll::Pending));

    cell.set(1, &mut Vec::new());

    assert!(matches!(stream.poll_next(cell.event(), noop_waker()), Poll::Ready(Some(()))));
}

#[test]
fn multiple_subscribers_are_notified_on_change() {
    let mut cell = ObservableCell::new(0);
    let mut first = cell.subscribe();
    let mut second = cell.subscribe();

    assert!(matches!(first.poll_next(cell.event(), noop_waker()), Poll::Pending));
    assert!(matches!(second.poll_next(cell.event(), noop_waker()), Poll::Pending));

    cell.set(1, &mut Vec::new());

    assert!(matches!(first.poll_next(cell.event(), noop_waker()), Poll::Ready(Some(()))));
    assert!(matches!(second.poll_next(cell.event(), noop_waker()), Poll::Ready(Some(()))));
}

#[test]
fn repeated_changes_notify_same_subscriber() {
    let mut cell = ObservableCell::new(0);
    let mut stream = cell.subscribe();

    cell.set(1, &mut Vec::new());
    assert!(matches!(stream.poll_next(cell.event(), noop_waker()), Poll::Ready(Some(()))));

    assert!(matches!(stream.poll_next(cell.event(), noop_waker()), Poll::Pending));

    cell.set(2, &mut Vec::new());
    assert!(matches!(stream.poll_next(cell.event(), noop_waker()), Poll::Ready(Some(()))));
}

#[test]
fn setting_same_value_does_not_notify() {
    let mut cell = ObservableCell::new(5);
    let mut stream = cell.subscribe();

    assert!(matches!(stream.poll_next(cell.event(), noop_waker()), Poll::Pending));

    cell.set(5, &mut Vec::new());

    assert!(matches!(stream.poll_next(cell.event(), noop_waker()), Poll::Pending));
}

#[test]
fn change_wakes_every_waiting_subscriber() {
    let mut cell = ObservableCell::new(0);
    let mut first = cell.subscribe();
    let mut second = cell.subscribe();
    let counter = Arc::new(Counter(Mutex::new(0)));
    let mut woken = Vec::new();

    assert_eq!(first.poll_next(cell.event(), Waker::from(counter.clone())), Poll::Pending);
    assert_eq!(second.poll_next(cell.event(), Waker::from(counter.clone())), Poll::Pending);
    cell.set(0, &mut woken);
    assert!(woken.is_empty());
    cell.set(1, &mut woken);
    for waker in woken {
        waker.wake();
    }
    assert_eq!(*counter.0.lock().unwrap(), 2);
}

#[test]
fn clone_keeps_the_value_and_no_subscriber() {
    let mut cell = ObservableCell::new(3);
    let mut stream = cell.subscribe();
    let mut copy = cell.clone();

    assert!(copy == cell);
    copy.set(4, &mut Vec::new());
    assert!(copy != cell);
    assert_eq!(cell.get(), &3);
    assert_eq!(stream.poll_next(cell.event(), noop_waker()), Poll::Pending);
}
