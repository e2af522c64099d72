use std::sync::{Arc, Mutex};
use std::task::{Poll, Wake, Waker};

use lamp_runtime::event::{Event, NotificationExt};

struct Counter(Mutex<usize>);

impl Wake for Counter {
    fn wake(self: Arc<Self>) {
        *self.0.lock().unwrap() += 1;
    }
}

impl Counter {
    fn get(&self) -> usize {
        *self.0.lock().unwrap()
    }
}

fn counting_waker() -> (Waker, Arc<Counter>) {
    let counter = Arc::new(Counter(Mutex::new(0)));
    (Waker::from(counter.clone()), counter)
}

fn noop_waker() -> Waker {
    counting_waker().0
}

fn wake_all(woken: &mut Vec<Waker>) {
    for waker in woken.drain(..) {
        waker.wake();
    }
}

#[test]
fn listener_starts_unnotified_and_pending() {
    let mut event = Event::new();
    let listener = event.listen();

    assert!(!listener.is_notified(&event));
    assert!(!listener.is_terminated(&event));
    assert!(matches!(listener.poll(&mut event, noop_waker()), Poll::Pending));
}

#[test]
fn notify_one_notifies_earliest_listener() {
    let mut event = Event::new();
    let first = event.listen();
    let second = event.listen();

    event.notify(1, &mut Vec::new());

    assert!(first.is_notified(&event));
    assert!(!second.is_notified(&event));
    assert_eq!(first.poll(&mut event, noop_waker()), Poll::Ready(()));
    assert!(matches!(second.poll(&mut event, noop_waker()), Poll::Pending));
}

#[test]
fn notify_all_notifies_all_active_listeners() {
    let mut event = Event::new();
    let first = event.listen();
    let second = event.listen();
    let third = event.listen();

    event.notify(usize::MAX, &mut Vec::new());

    assert_eq!(first.poll(&mut event, noop_waker()), Poll::Ready(()));
    assert_eq!(second.poll(&mut event, noop_waker()), Poll::Ready(()));
    assert_eq!(third.poll(&mut event, noop_waker()), Poll::Ready(()));
}

#[test]
fn additional_only_notifies_still_waiting_listeners() {
    let mut event = Event::new();
    let first = event.listen();
    let second = event.listen();
    let third = event.listen();

    event.notify(1, &mut Vec::new());
    event.notify(1.additional(), &mut Vec::new());

    assert_eq!(first.poll(&mut event, noop_waker()), Poll::Ready(()));
    assert_eq!(second.poll(&mut event, noop_waker()), Poll::Ready(()));
    assert!(matches!(third.poll(&mut event, noop_waker()), Poll::Pending));
}

#[test]
fn listener_transitions_to_terminated_once_notified() {
    let mut event = Event::new();
    let listener = event.listen();

    assert!(!listener.is_terminated(&event));
    event.notify(1, &mut Vec::new());
    assert!(listener.is_notified(&event));
    assert!(listener.is_terminated(&event));

    let output = listener.poll(&mut event, noop_waker());
    assert_eq!(output, Poll::Ready(()));
}

#[test]
fn with_notification_delivers_typed_value() {
    let mut event = Event::<usize>::new_with();
    let listener = event.listen();

    event.notify(1.with(42), &mut Vec::new());

    assert_eq!(listener.poll(&mut event, noop_waker()), Poll::Ready(42));
}

#[test]
fn dropping_notified_listener_transfers_notification_to_next_waiting() {
    let mut event = Event::new();
    let first = event.listen();
    let second = event.listen();
    let third = event.listen();

    event.notify(1, &mut Vec::new());
    assert!(first.is_notified(&event));
    assert!(!second.is_notified(&event));
    assert!(!third.is_notified(&event));

    first.drop(&mut event, &mut Vec::new());

    assert!(second.is_notified(&event));
    assert!(!third.is_notified(&event));
    assert_eq!(second.poll(&mut event, noop_waker()), Poll::Ready(()));
    assert!(matches!(third.poll(&mut event, noop_waker()), Poll::Pending));
}

#[test]
fn notify_counts_listeners_that_hold_a_notification() {
    let mut event = Event::new();
    let first = event.listen();
    let second = event.listen();
    let third = event.listen();

    event.notify(1, &mut Vec::new());
    event.notify(2, &mut Vec::new());
    assert!(first.is_notified(&event));
    assert!(second.is_notified(&event));
    assert!(!third.is_notified(&event));

    event.notify(2, &mut Vec::new());
    assert!(!third.is_notified(&event));
}

#[test]
fn notify_reaches_next_listener_after_notification_was_taken() {
    let mut event = Event::new();
    let first = event.listen();
    let second = event.listen();

    event.notify(1, &mut Vec::new());
    assert_eq!(first.poll(&mut event, noop_waker()), Poll::Ready(()));
    first.drop(&mut event, &mut Vec::new());
    assert!(!second.is_notified(&event));

    event.notify(1, &mut Vec::new());
    assert!(second.is_notified(&event));
}

#[test]
fn notification_is_taken_once() {
    let mut event = Event::new();
    let listener = event.listen();

    event.notify(1, &mut Vec::new());
    assert_eq!(listener.poll(&mut event, noop_waker()), Poll::Ready(()));
    assert!(!listener.is_notified(&event));
    assert_eq!(listener.poll(&mut event, noop_waker()), Poll::Pending);
}

#[test]
fn only_tasks_of_notified_listeners_are_woken() {
    let mut event = Event::new();
    let first = event.listen();
    let second = event.listen();
    let (first_waker, first_count) = counting_waker();
    let (second_waker, second_count) = counting_waker();
    let mut woken = Vec::new();

    assert_eq!(first.poll(&mut event, first_waker), Poll::Pending);
    assert_eq!(second.poll(&mut event, second_waker), Poll::Pending);

    event.notify(1, &mut woken);
    assert_eq!(woken.len(), 1);
    wake_all(&mut woken);
    assert_eq!(first_count.get(), 1);
    assert_eq!(second_count.get(), 0);

    first.drop(&mut event, &mut woken);
    wake_all(&mut woken);
    assert_eq!(second_count.get(), 1);
    assert!(second.is_notified(&event));
}

#[test]
fn latest_waker_is_the_one_that_is_woken() {
    let mut event = Event::new();
    let listener = event.listen();
    let (old_waker, old_count) = counting_waker();
    let (new_waker, new_count) = counting_waker();
    let mut woken = Vec::new();

    assert_eq!(listener.poll(&mut event, old_waker), Poll::Pending);
    assert_eq!(listener.poll(&mut event, new_waker), Poll::Pending);
    event.notify(usize::MAX, &mut woken);
    wake_all(&mut woken);

    assert_eq!(old_count.get(), 0);
    assert_eq!(new_count.get(), 1);
}

#[test]
fn dropping_waiting_listener_notifies_nobody() {
    let mut event = Event::new();
    let first = event.listen();
    let second = event.listen();
    let mut woken = Vec::new();

    first.drop(&mut event, &mut woken);
    assert!(woken.is_empty());
    assert!(!second.is_notified(&event));
}

#[test]
fn closing_wakes_waiting_tasks_without_notifying() {
    let mut event = Event::new();
    let listener = event.listen();
    let (waker, count) = counting_waker();
    let mut woken = Vec::new();

    assert_eq!(listener.poll(&mut event, waker), Poll::Pending);
    event.close(&mut woken);
    wake_all(&mut woken);

    assert_eq!(count.get(), 1);
    assert!(!listener.is_notified(&event));
}

#[test]
fn additional_for_all_keeps_earlier_values() {
    let mut event = Event::<u8>::new_with();
    let first = event.listen();
    let second = event.listen();

    event.notify(1.with(1), &mut Vec::new());
    event.notify(usize::MAX.with(2).additional(), &mut Vec::new());

    assert_eq!(first.poll(&mut event, noop_waker()), Poll::Ready(1));
    assert_eq!(second.poll(&mut event, noop_waker()), Poll::Ready(2));
}

#[test]
fn stream_registers_anew_after_each_notification() {
    let mut event = Event::<u8>::new_with();
    let mut stream = event.stream();

    assert_eq!(stream.poll_next(&mut event, noop_waker()), Poll::Pending);
    event.notify(usize::MAX.with(1), &mut Vec::new());
    assert_eq!(stream.poll_next(&mut event, noop_waker()), Poll::Ready(Some(1)));

    // Nobody listens between taking a notification and the next poll.
    event.notify(usize::MAX.with(2), &mut Vec::new());
    assert_eq!(stream.poll_next(&mut event, noop_waker()), Poll::Pending);

    event.notify(usize::MAX.with(3), &mut Vec::new());
    assert_eq!(stream.poll_next(&mut event, noop_waker()), Poll::Ready(Some(3)));
}

#[test]
fn stream_ends_once_nothing_keeps_the_event() {
    let mut event = Event::<u8>::new_with();
    let mut stream = event.stream();
    let other = event.listen();

    event.notify(usize::MAX.with(1), &mut Vec::new());
    event.close(&mut Vec::new());
    assert_eq!(stream.poll_next(&mut event, noop_waker()), Poll::Ready(Some(1)));

    // The other listener still keeps the event.
    assert_eq!(stream.poll_next(&mut event, noop_waker()), Poll::Pending);
    stream.drop(&mut event, &mut Vec::new());

    let mut stream = event.stream();
    event.notify(usize::MAX.with(2), &mut Vec::new());
    other.drop(&mut event, &mut Vec::new());
    assert_eq!(stream.poll_next(&mut event, noop_waker()), Poll::Ready(Some(2)));
    assert_eq!(stream.poll_next(&mut event, noop_waker()), Poll::Ready(None));
    assert_eq!(stream.poll_next(&mut event, noop_waker()), Poll::Ready(None));
}
