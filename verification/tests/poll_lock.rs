use std::sync::{Arc, Mutex};
use std::task::{Poll, Wake, Waker};

use lamp_runtime::poll_lock::{AsyncPollMutex, LockedSink, SinkCall, SinkOp, SinkStep};

struct Counter(Mutex<usize>);

impl Wake for Counter {
    fn wake(self: Arc<Self>) {
        *self.0.lock().unwrap() += 1;
    }
}

fn noop_waker() -> Waker {
    Waker::from(Arc::new(Counter(Mutex::new(0))))
}

fn ready<T>(polled: Poll<T>) -> T {
    match polled {
        Poll::Ready(value) => value,
        Poll::Pending => panic!("should be ready"),
    }
}

/// A sink that collects its items, takes a limited number, and can be closed.
struct CollectSink {
    items: Vec<i32>,
    room: usize,
    closed: bool,
}

impl CollectSink {
    fn new(room: usize) -> Self {
        CollectSink {
            items: Vec::new(),
            room,
            closed: false,
        }
    }

    fn call(&mut self, call: SinkCall<i32>) -> Poll<Result<(), &'static str>> {
        match call {
            SinkCall::PollReady if self.closed => Poll::Ready(Err("closed")),
            SinkCall::PollReady if self.items.len() < self.room => Poll::Ready(Ok(())),
            SinkCall::PollReady => Poll::Pending,
            SinkCall::StartSend(item) => {
                self.items.push(item);
                Poll::Ready(Ok(()))
            }
            SinkCall::PollFlush => Poll::Ready(Ok(())),
            SinkCall::PollClose => {
                self.closed = true;
                Poll::Ready(Ok(()))
            }
        }
    }
}

type Sink = LockedSink<CollectSink, i32>;

fn poll(sink: &mut Sink, op: SinkOp) -> Poll<Result<(), &'static str>> {
    let mut woken = Vec::new();
    let mut step = sink.begin(op, noop_waker(), &mut woken);
    loop {
        step = match step {
            SinkStep::Call(call) => {
                let answer = sink.inner().call(call);
                sink.answer(answer, &mut woken)
            }
            SinkStep::Return(polled) => return polled,
        };
    }
}

fn send(sink: &mut Sink, item: i32) {
    assert_eq!(poll(sink, SinkOp::Ready), Poll::Ready(Ok(())));
    assert_eq!(sink.start_send::<()>(item), Ok(()));
    assert_eq!(poll(sink, SinkOp::Flush), Poll::Ready(Ok(())));
}

fn items(sink: &mut Sink) -> Vec<i32> {
    let mut woken = Vec::new();
    let mut future = sink.lock();
    let guard = ready(future.poll(sink.get_mut(), noop_waker(), &mut woken));
    let items = guard.deref(sink.get_mut()).items.clone();
    guard.drop(sink.get_mut(), &mut woken);
    items
}

#[test]
fn poll_mutex_gives_its_value_out() {
    let mut lock = AsyncPollMutex::new(42i32);
    let mut woken = Vec::new();
    let mut future = lock.lock();
    let guard = ready(future.poll(lock.get_mut(), noop_waker(), &mut woken));
    assert_eq!(*guard.deref(lock.get()), 42);
}

#[test]
fn poll_mutex_keeps_what_a_guard_wrote() {
    let mut lock = AsyncPollMutex::new(0u32);
    let mut woken = Vec::new();
    let mut guard = ready(lock.poll_lock(noop_waker(), &mut woken));
    *guard.deref_mut(lock.get_mut()) = 99;
    guard.drop(lock.get_mut(), &mut woken);
    let guard = ready(lock.poll_lock(noop_waker(), &mut woken));
    assert_eq!(*guard.deref(lock.get()), 99);
}

#[test]
fn poll_mutex_waits_while_it_is_locked() {
    let mut lock = AsyncPollMutex::new(42i32);
    let counter = Arc::new(Counter(Mutex::new(0)));
    let mut woken = Vec::new();
    let mut future = lock.lock();
    let guard = ready(future.poll(lock.get_mut(), noop_waker(), &mut woken));

    assert!(matches!(
        lock.poll_lock(Waker::from(counter.clone()), &mut woken),
        Poll::Pending
    ));
    guard.drop(lock.get_mut(), &mut woken);
    for waker in woken.drain(..) {
        waker.wake();
    }
    assert_eq!(*counter.0.lock().unwrap(), 1);
    assert!(matches!(lock.poll_lock(noop_waker(), &mut woken), Poll::Ready(_)));
}

#[test]
fn poll_mutex_can_be_locked_again_and_again() {
    let mut lock = AsyncPollMutex::new(0u32);
    let mut woken = Vec::new();
    for _ in 0..3 {
        let guard = ready(lock.poll_lock(noop_waker(), &mut woken));
        guard.drop(lock.get_mut(), &mut woken);
    }
}

#[test]
fn locked_sink_is_ready_while_its_slot_is_empty() {
    let mut sink: Sink = LockedSink::new(CollectSink::new(9));
    let step: SinkStep<i32, ()> = sink.begin(SinkOp::Ready, noop_waker(), &mut Vec::new());
    assert_eq!(step, SinkStep::Return(Poll::Ready(Ok(()))));
}

#[test]
fn locked_sink_stores_an_item_without_passing_it_on() {
    let mut sink: Sink = LockedSink::new(CollectSink::new(9));
    assert_eq!(sink.start_send::<()>(42), Ok(()));
    assert!(items(&mut sink).is_empty());
}

#[test]
fn locked_sink_delivers_items_in_order() {
    let mut sink: Sink = LockedSink::new(CollectSink::new(9));
    for item in 0..5 {
        send(&mut sink, item);
    }
    assert_eq!(items(&mut sink), vec![0, 1, 2, 3, 4]);
}

#[test]
fn locked_sink_flush_forwards_the_waiting_item() {
    let mut sink: Sink = LockedSink::new(CollectSink::new(9));
    assert_eq!(sink.start_send::<()>(99), Ok(()));
    assert_eq!(poll(&mut sink, SinkOp::Flush), Poll::Ready(Ok(())));
    assert_eq!(items(&mut sink), vec![99]);
}

#[test]
fn locked_sink_close_forwards_the_item_and_closes() {
    let mut sink: Sink = LockedSink::new(CollectSink::new(9));
    send(&mut sink, 1);
    assert_eq!(sink.start_send::<()>(2), Ok(()));
    assert_eq!(poll(&mut sink, SinkOp::Close), Poll::Ready(Ok(())));
    assert_eq!(items(&mut sink), vec![1, 2]);

    // A closed sink refuses what comes next, and the refusal is passed on.
    assert_eq!(sink.start_send::<()>(3), Ok(()));
    assert_eq!(poll(&mut sink, SinkOp::Ready), Poll::Ready(Err("closed")));
}

#[test]
fn locked_sink_keeps_an_item_that_the_sink_is_not_ready_for() {
    let mut sink: Sink = LockedSink::new(CollectSink::new(1));
    send(&mut sink, 1);
    assert_eq!(sink.start_send::<()>(2), Ok(()));
    assert_eq!(poll(&mut sink, SinkOp::Ready), Poll::Pending);
    assert_eq!(poll(&mut sink, SinkOp::Flush), Poll::Pending);
    assert_eq!(items(&mut sink), vec![1]);

    let guard = ready(sink.poll_lock(noop_waker(), &mut Vec::new()));
    let mut guard = guard;
    guard.deref_mut(sink.get_mut()).room = 2;
    guard.drop(sink.get_mut(), &mut Vec::new());
    assert_eq!(poll(&mut sink, SinkOp::Ready), Poll::Ready(Ok(())));
    assert_eq!(items(&mut sink), vec![1, 2]);
}

#[test]
fn locked_sink_waits_for_its_lock() {
    let mut sink: Sink = LockedSink::new(CollectSink::new(9));
    let guard = ready(sink.poll_lock(noop_waker(), &mut Vec::new()));
    assert_eq!(poll(&mut sink, SinkOp::Flush), Poll::Pending);
    guard.drop(sink.get_mut(), &mut Vec::new());
    assert_eq!(poll(&mut sink, SinkOp::Flush), Poll::Ready(Ok(())));
}

#[test]
fn poll_mutex_that_stops_waiting_passes_its_turn_on() {
    let mut lock = AsyncPollMutex::new(());
    let counter = Arc::new(Counter(Mutex::new(0)));
    let mut woken = Vec::new();
    let guard = ready(lock.poll_lock(noop_waker(), &mut woken));

    assert!(matches!(lock.poll_lock(noop_waker(), &mut woken), Poll::Pending));
    let mut other = lock.lock();
    let waker = Waker::from(counter.clone());
    assert!(matches!(other.poll(lock.get_mut(), waker, &mut woken), Poll::Pending));
    guard.drop(lock.get_mut(), &mut woken);
    assert_eq!(*counter.0.lock().unwrap(), 0);

    lock.stop(&mut woken);
    for waker in woken.drain(..) {
        waker.wake();
    }
    assert_eq!(*counter.0.lock().unwrap(), 1);
    assert!(matches!(other.poll(lock.get_mut(), noop_waker(), &mut woken), Poll::Ready(_)));
}

#[test]
fn locked_sink_that_stops_waiting_can_be_polled_again() {
    let mut sink: Sink = LockedSink::new(CollectSink::new(9));
    let mut woken = Vec::new();
    let guard = ready(sink.poll_lock(noop_waker(), &mut woken));
    assert_eq!(poll(&mut sink, SinkOp::Flush), Poll::Pending);
    sink.stop(&mut woken);
    guard.drop(sink.get_mut(), &mut woken);
    assert_eq!(sink.start_send::<()>(1), Ok(()));
    assert_eq!(poll(&mut sink, SinkOp::Flush), Poll::Ready(Ok(())));
    assert_eq!(items(&mut sink), vec![1]);
}
