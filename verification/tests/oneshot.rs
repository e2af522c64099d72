use std::sync::{Arc, Mutex};
use std::task::{Poll, Wake, Waker};

use lamp_runtime::channel::oneshot::channel;
use lamp_runtime::channel::ChannelError;

struct Counter(Mutex<usize>);

impl Wake for Counter {
    fn wake(self: Arc<Self>) {
        *self.0.lock().unwrap() += 1;
    }
}

impl Counter {
    fn get(&self) -> usize {
        *self.0.lock().unwrap()
    }
}

fn counting_waker() -> (Waker, Arc<Counter>) {
    let counter = Arc::new(Counter(Mutex::new(0)));
    (Waker::from(counter.clone()), counter)
}

fn noop_waker() -> Waker {
    counting_waker().0
}

#[test]
fn receiver_starts_pending_until_sender_fires() {
    let (mut shared, sender, mut receiver) = channel();

    assert!(matches!(receiver.poll(&mut shared, noop_waker()), Poll::Pending));

    assert!(sender.send(&mut shared, 7, &mut Vec::new()).is_ok());
    assert_eq!(receiver.poll(&mut shared, noop_waker()), Poll::Ready(Ok(7)));
}

#[test]
fn sent_value_is_delivered_once() {
    let (mut shared, sender, mut receiver) = channel();

    assert!(sender.send(&mut shared, 42, &mut Vec::new()).is_ok());
    assert_eq!(receiver.poll(&mut shared, noop_waker()), Poll::Ready(Ok(42)));
}

#[test]
fn send_fails_after_receiver_is_dropped() {
    let (mut shared, sender, receiver) = channel::<usize>();

    receiver.drop(&mut shared, &mut Vec::new());

    assert!(matches!(sender.send(&mut shared, 5, &mut Vec::new()), Err(ChannelError)));
}

#[test]
fn receiver_is_closed_after_sender_is_dropped() {
    let (mut shared, sender, mut receiver) = channel::<usize>();

    sender.drop(&mut shared, &mut Vec::new());

    assert_eq!(receiver.poll(&mut shared, noop_waker()), Poll::Ready(Err(ChannelError)));
}

#[test]
fn nothing_is_left_after_delivery() {
    let (mut shared, sender, mut receiver) = channel();

    assert_eq!(receiver.try_recv(&mut shared), Ok(None));
    assert_eq!(sender.send(&mut shared, 1, &mut Vec::new()), Ok(()));
    assert_eq!(receiver.try_recv(&mut shared), Ok(Some(1)));
    assert_eq!(receiver.try_recv(&mut shared), Ok(None));
    assert_eq!(receiver.poll(&mut shared, noop_waker()), Poll::Pending);
    assert_eq!(receiver.poll(&mut shared, noop_waker()), Poll::Pending);
}

#[test]
fn waiting_receiver_is_woken_when_the_sender_goes() {
    for sends in [true, false] {
        let (mut shared, sender, mut receiver) = channel();
        let (waker, count) = counting_waker();
        let mut woken = Vec::new();

        assert_eq!(receiver.poll(&mut shared, waker), Poll::Pending);
        if sends {
            assert_eq!(sender.send(&mut shared, 1, &mut woken), Ok(()));
        } else {
            sender.drop(&mut shared, &mut woken);
        }
        for waker in woken {
            waker.wake();
        }
        assert_eq!(count.get(), 1);
    }
}

#[test]
fn closed_receiver_refuses_values_and_reports_it() {
    let (mut shared, sender, mut receiver) = channel();

    receiver.close(&mut shared);
    assert_eq!(receiver.try_recv(&mut shared), Err(ChannelError));
    assert_eq!(receiver.poll(&mut shared, noop_waker()), Poll::Pending);
    assert_eq!(sender.send(&mut shared, 1, &mut Vec::new()), Err(ChannelError));

    let (mut shared, sender, mut receiver) = channel::<u8>();
    sender.drop(&mut shared, &mut Vec::new());
    assert_eq!(receiver.try_recv(&mut shared), Err(ChannelError));
}

#[test]
fn closing_keeps_a_value_that_was_sent() {
    let (mut shared, sender, mut receiver) = channel();

    assert_eq!(sender.send(&mut shared, 9, &mut Vec::new()), Ok(()));
    receiver.close(&mut shared);
    assert_eq!(receiver.try_recv(&mut shared), Ok(Some(9)));
}
