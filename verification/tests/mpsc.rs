use std::sync::{Arc, Mutex};
use std::task::{Poll, Wake, Waker};

use lamp_runtime::channel::mpsc::channel;
use lamp_runtime::channel::ChannelError;

struct Counter(Mutex<usize>);

impl Wake for Counter {
    fn wake(self: Arc<Self>) {
        *self.0.lock().unwrap() += 1;
    }
}

impl Counter {
    fn get(&self) -> usize {
        *self.0.lock().unwrap()
    }
}

fn counting_waker() -> (Waker, Arc<Counter>) {
    let counter = Arc::new(Counter(Mutex::new(0)));
    (Waker::from(counter.clone()), counter)
}

fn noop_waker() -> Waker {
    counting_waker().0
}

fn wake_all(woken: &mut Vec<Waker>) {
    for waker in woken.drain(..) {
        waker.wake();
    }
}

#[test]
fn receiver_wakes_when_data_becomes_available() {
    let (mut shared, sender, mut receiver) = channel(1);
    let (waker, wake_count) = counting_waker();
    let mut woken = Vec::new();

    assert!(matches!(receiver.poll_next(&mut shared, waker, &mut woken), Poll::Pending));
    wake_all(&mut woken);
    assert_eq!(wake_count.get(), 0);

    assert_eq!(sender.try_send(&mut shared, 7, &mut woken), Ok(()));
    wake_all(&mut woken);
    assert_eq!(wake_count.get(), 1);
    assert_eq!(
        receiver.poll_next(&mut shared, noop_waker(), &mut woken),
        Poll::Ready(Some(7))
    );
}

#[test]
fn sender_wakes_when_capacity_becomes_available() {
    let (mut shared, sender, mut receiver) = channel(1);
    let (waker, wake_count) = counting_waker();
    let mut woken = Vec::new();

    assert_eq!(sender.try_send(&mut shared, 1, &mut woken), Ok(()));

    let mut send = sender.send(2);
    assert!(matches!(send.poll(&mut shared, waker, &mut woken), Poll::Pending));
    wake_all(&mut woken);
    assert_eq!(wake_count.get(), 0);

    assert_eq!(
        receiver.poll_next(&mut shared, noop_waker(), &mut woken),
        Poll::Ready(Some(1))
    );
    wake_all(&mut woken);
    assert_eq!(wake_count.get(), 1);
    assert!(matches!(
        send.poll(&mut shared, noop_waker(), &mut woken),
        Poll::Ready(Ok(()))
    ));
    assert_eq!(
        receiver.poll_next(&mut shared, noop_waker(), &mut woken),
        Poll::Ready(Some(2))
    );
}

#[test]
fn waiting_sender_errors_when_receiver_is_dropped() {
    let (mut shared, sender, receiver) = channel(1);
    let (waker, wake_count) = counting_waker();
    let mut woken = Vec::new();

    assert_eq!(sender.try_send(&mut shared, 1, &mut woken), Ok(()));

    let mut send = sender.send(2);
    assert!(matches!(send.poll(&mut shared, waker, &mut woken), Poll::Pending));
    wake_all(&mut woken);
    assert_eq!(wake_count.get(), 0);

    receiver.drop(&mut shared, &mut woken);
    wake_all(&mut woken);

    assert_eq!(wake_count.get(), 1);
    assert!(matches!(
        send.poll(&mut shared, noop_waker(), &mut woken),
        Poll::Ready(Err(_))
    ));
}

#[test]
fn receiver_finishes_only_after_queue_is_empty_and_all_senders_are_dropped() {
    let (mut shared, sender, mut receiver) = channel(2);
    let (waker, wake_count) = counting_waker();
    let mut woken = Vec::new();
    let sender_clone = sender.clone(&mut shared);

    assert_eq!(sender.try_send(&mut shared, 5, &mut woken), Ok(()));
    sender.drop(&mut shared, &mut woken);

    assert_eq!(
        receiver.poll_next(&mut shared, noop_waker(), &mut woken),
        Poll::Ready(Some(5))
    );
    assert!(matches!(receiver.poll_next(&mut shared, waker, &mut woken), Poll::Pending));
    wake_all(&mut woken);
    assert_eq!(wake_count.get(), 0);

    sender_clone.drop(&mut shared, &mut woken);
    wake_all(&mut woken);

    assert_eq!(wake_count.get(), 1);
    assert_eq!(
        receiver.poll_next(&mut shared, noop_waker(), &mut woken),
        Poll::Ready(None)
    );
}

#[test]
fn queue_state_tracks_fill_level_and_receiver_closure() {
    let (mut shared, sender, receiver) = channel(1);
    let mut woken = Vec::new();

    assert!(receiver.is_empty(&shared));
    assert!(!receiver.is_full(&shared));
    assert!(!receiver.is_closed(&shared));
    assert!(!sender.is_closed(&shared));

    assert_eq!(sender.try_send(&mut shared, 3, &mut woken), Ok(()));
    assert!(!receiver.is_empty(&shared));
    assert!(receiver.is_full(&shared));

    receiver.drop(&mut shared, &mut woken);

    assert!(sender.is_closed(&shared));
    assert_eq!(sender.try_send(&mut shared, 4, &mut woken), Err(4));
}

#[test]
fn values_come_out_in_the_order_they_went_in() {
    let (mut shared, sender, mut receiver) = channel(3);
    let mut woken = Vec::new();

    for value in [1, 2, 3] {
        assert_eq!(sender.try_send(&mut shared, value, &mut woken), Ok(()));
    }
    assert_eq!(sender.try_send(&mut shared, 4, &mut woken), Err(4));
    for value in [1, 2, 3] {
        assert_eq!(
            receiver.poll_next(&mut shared, noop_waker(), &mut woken),
            Poll::Ready(Some(value))
        );
    }
    assert!(receiver.is_empty(&shared));
}

#[test]
fn channel_without_room_accepts_nothing() {
    let (mut shared, sender, receiver) = channel(0);
    let mut woken = Vec::new();

    assert!(receiver.is_full(&shared));
    assert_eq!(sender.try_send(&mut shared, 'a', &mut woken), Err('a'));
    let mut send = sender.send('b');
    assert_eq!(send.poll(&mut shared, noop_waker(), &mut woken), Poll::Pending);
}

#[test]
fn only_a_full_queue_wakes_a_sender_and_only_the_earliest() {
    let (mut shared, sender, mut receiver) = channel(1);
    let (first_waker, first_count) = counting_waker();
    let (second_waker, second_count) = counting_waker();
    let mut woken = Vec::new();

    assert_eq!(sender.try_send(&mut shared, 1, &mut woken), Ok(()));
    let mut first = sender.send(2);
    let mut second = sender.send(3);
    assert_eq!(first.poll(&mut shared, first_waker, &mut woken), Poll::Pending);
    assert_eq!(second.poll(&mut shared, second_waker, &mut woken), Poll::Pending);

    assert_eq!(
        receiver.poll_next(&mut shared, noop_waker(), &mut woken),
        Poll::Ready(Some(1))
    );
    wake_all(&mut woken);
    assert_eq!(first_count.get(), 1);
    assert_eq!(second_count.get(), 0);

    // The first one gives up, so the second one gets its chance.
    first.drop(&mut shared, &mut woken);
    wake_all(&mut woken);
    assert_eq!(second_count.get(), 1);
    assert_eq!(
        second.poll(&mut shared, noop_waker(), &mut woken),
        Poll::Ready(Ok(()))
    );
    assert_eq!(
        receiver.poll_next(&mut shared, noop_waker(), &mut woken),
        Poll::Ready(Some(3))
    );
}

#[test]
fn dropping_the_receiver_wakes_its_own_task_and_drops_the_queue() {
    let (mut shared, sender, mut receiver) = channel::<Arc<u8>>(2);
    let (waker, wake_count) = counting_waker();
    let mut woken = Vec::new();

    assert!(matches!(receiver.poll_next(&mut shared, waker, &mut woken), Poll::Pending));
    receiver.drop(&mut shared, &mut woken);
    wake_all(&mut woken);
    assert_eq!(wake_count.get(), 1);

    let (mut shared, sender_two, receiver) = channel::<Arc<u8>>(2);
    let item = Arc::new(1);
    assert_eq!(sender_two.try_send(&mut shared, item.clone(), &mut woken), Ok(()));
    receiver.drop(&mut shared, &mut woken);
    assert_eq!(Arc::strong_count(&item), 1);
    assert_eq!(
        sender.send(item).poll(&mut shared, noop_waker(), &mut woken),
        Poll::Ready(Err(ChannelError))
    );
    assert_eq!(ChannelError.to_string(), "channel closed");
}

#[test]
fn what_was_not_delivered_is_handed_back() {
    let (mut shared, sender, receiver) = channel(2);
    let mut woken = Vec::new();

    assert_eq!(sender.try_send(&mut shared, 1, &mut woken), Ok(()));
    assert_eq!(sender.try_send(&mut shared, 2, &mut woken), Ok(()));
    let send = sender.send(3);
    assert_eq!(send.drop(&mut shared, &mut woken), Some(3));
    assert!(shared.is_open());
    assert_eq!(receiver.drop(&mut shared, &mut woken), vec![1, 2]);
    assert!(!shared.is_open());
}

#[test]
fn senders_are_counted_while_the_receiver_is_there() {
    let (mut shared, sender, receiver) = channel::<u8>(1);
    let mut woken = Vec::new();

    let second = sender.clone(&mut shared);
    assert!(shared.can_clone());
    sender.drop(&mut shared, &mut woken);
    assert!(!receiver.is_closed(&shared));
    second.drop(&mut shared, &mut woken);
    assert!(receiver.is_closed(&shared));
}

#[test]
fn completed_send_waits_while_there_is_no_room() {
    let (mut shared, sender, mut receiver) = channel(1);
    let mut woken = Vec::new();
    let mut send = sender.send(1);

    assert!(send.can_poll(&shared));
    assert_eq!(send.poll(&mut shared, noop_waker(), &mut woken), Poll::Ready(Ok(())));

    // There is nothing left to send, which only matters once there is room again.
    assert!(send.can_poll(&shared));
    assert_eq!(send.poll(&mut shared, noop_waker(), &mut woken), Poll::Pending);
    assert!(receiver.can_poll(&shared));
    assert_eq!(
        receiver.poll_next(&mut shared, noop_waker(), &mut woken),
        Poll::Ready(Some(1))
    );
    assert!(!send.can_poll(&shared));
}

#[test]
fn accepted_values_come_out_in_order_over_a_long_run() {
    let (mut shared, sender, mut receiver) = channel(2);
    let second = sender.clone(&mut shared);
    let mut woken = Vec::new();
    let mut accepted = Vec::new();
    let mut yielded = Vec::new();

    for value in 0..20 {
        if sender.try_send(&mut shared, value, &mut woken).is_ok() {
            accepted.push(value);
        }
        let mut send = second.send(100 + value);
        if send.poll(&mut shared, noop_waker(), &mut woken) == Poll::Ready(Ok(())) {
            accepted.push(100 + value);
        }
        send.drop(&mut shared, &mut woken);
        if value % 3 != 0 {
            let polled = receiver.poll_next(&mut shared, noop_waker(), &mut woken);
            if let Poll::Ready(Some(value)) = polled {
                yielded.push(value);
            }
        }
    }
    yielded.extend(receiver.drop(&mut shared, &mut woken));
    assert_eq!(yielded, accepted);
    assert!(accepted.len() > 10);
}
