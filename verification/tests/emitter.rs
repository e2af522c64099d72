use std::cell::RefCell;
use std::rc::Rc;
use std::sync::{Arc, Mutex};
use std::task::{Poll, Wake, Waker};

use lamp_runtime::emitter::{
    Emitter, EmitterStream, EventEmitter, EventTarget, EventTargetExt, Listener, ListenerStep,
    SubscribeOnce, WithWeak,
};
use lamp_runtime::executor::{EventLoopWaker, Executor};
use lamp_runtime::Upgrade;

struct Counter(Mutex<usize>);

impl Wake for Counter {
    fn wake(self: Arc<Self>) {
        *self.0.lock().unwrap() += 1;
    }
}

fn noop_waker() -> Waker {
    Waker::from(Arc::new(Counter(Mutex::new(0))))
}

fn poll_listener<F: FnMut(usize) -> bool>(
    listener: &mut Listener<EmitterStream<usize>, F>,
    emitter: &mut Emitter<usize>,
) -> Poll<()> {
    let mut step = listener.begin();
    loop {
        step = match step {
            ListenerStep::PollStream => {
                let polled = listener.stream().poll_next(emitter, noop_waker());
                listener.polled(polled)
            }
            ListenerStep::Call(value) => {
                let more = (listener.map())(value);
                listener.called(more)
            }
            ListenerStep::Return(polled) => return polled,
        };
    }
}

#[test]
fn emitted_value_reaches_single_subscriber() {
    let mut emitter = Emitter::new();
    let mut stream = emitter.subscribe();

    assert!(matches!(stream.poll_next(&mut emitter, noop_waker()), Poll::Pending));

    emitter.emit(5usize, &mut Vec::new());

    assert_eq!(stream.poll_next(&mut emitter, noop_waker()), Poll::Ready(Some(5)));
}

#[test]
fn emitted_value_is_broadcast_to_all_subscribers() {
    let mut emitter = Emitter::new();
    let mut first = emitter.subscribe();
    let mut second = emitter.subscribe();

    emitter.emit(8usize, &mut Vec::new());

    assert_eq!(first.poll_next(&mut emitter, noop_waker()), Poll::Ready(Some(8)));
    assert_eq!(second.poll_next(&mut emitter, noop_waker()), Poll::Ready(Some(8)));
}

#[test]
fn listener_stops_once_callback_returns_false() {
    let mut emitter = Emitter::new();
    let seen = Rc::new(RefCell::new(Vec::new()));
    let captured = seen.clone();
    let mut listener = Listener::new(emitter.subscribe(), move |value| {
        captured.borrow_mut().push(value);
        value < 2
    });

    assert!(matches!(poll_listener(&mut listener, &mut emitter), Poll::Pending));

    emitter.emit(1usize, &mut Vec::new());
    assert!(matches!(poll_listener(&mut listener, &mut emitter), Poll::Pending));

    emitter.emit(2usize, &mut Vec::new());
    assert_eq!(poll_listener(&mut listener, &mut emitter), Poll::Ready(()));
    assert_eq!(seen.borrow().as_slice(), &[1, 2]);
}

#[test]
fn stream_finishes_after_emitter_is_dropped() {
    let mut emitter = Emitter::new();
    let mut stream = emitter.subscribe();

    emitter.emit(13usize, &mut Vec::new());
    emitter.close(&mut Vec::new());

    assert_eq!(stream.poll_next(&mut emitter, noop_waker()), Poll::Ready(Some(13)));
    assert_eq!(stream.poll_next(&mut emitter, noop_waker()), Poll::Ready(None));
}

#[test]
fn listener_ends_with_its_stream() {
    let mut emitter = Emitter::new();
    let mut listener = Listener::new(emitter.subscribe(), |_: usize| true);

    emitter.emit(1usize, &mut Vec::new());
    emitter.close(&mut Vec::new());
    assert_eq!(poll_listener(&mut listener, &mut emitter), Poll::Ready(()));
    assert_eq!(poll_listener(&mut listener, &mut emitter), Poll::Ready(()));
}

#[test]
fn waiting_subscribers_are_woken() {
    let mut emitter = Emitter::new();
    let mut first = emitter.subscribe();
    let second = emitter.subscribe();
    let counter = Arc::new(Counter(Mutex::new(0)));
    let mut woken = Vec::new();

    assert_eq!(first.poll_next(&mut emitter, Waker::from(counter.clone())), Poll::Pending);
    emitter.emit('x', &mut woken);
    for waker in woken.drain(..) {
        waker.wake();
    }
    assert_eq!(*counter.0.lock().unwrap(), 1);

    // A value that has not been taken is not replaced.
    emitter.emit('y', &mut woken);
    assert!(woken.is_empty());
    assert_eq!(first.poll_next(&mut emitter, noop_waker()), Poll::Ready(Some('x')));
    second.drop(&mut emitter, &mut woken);
}

#[test]
fn subscribe_once_takes_one_value() {
    let mut emitter = Emitter::new();
    let mut once = emitter.subscribe_once();

    let polled = once.stream().poll_next(&mut emitter, noop_waker());
    assert_eq!(once.polled(polled), Poll::Pending);
    emitter.emit(3, &mut Vec::new());
    let polled = once.stream().poll_next(&mut emitter, noop_waker());
    assert_eq!(once.polled(polled), Poll::Ready(3));
}

struct Quiet;

impl EventLoopWaker for Quiet {
    fn wake(&mut self) {}
}

type Callback = fn(u8, u8) -> bool;

#[test]
fn listen_with_keeps_the_weak_value_and_the_callback() {
    let mut emitter = Emitter::<u8>::new();
    let mut executor: Executor<Quiet, Listener<EmitterStream<u8>, WithWeak<u8, Callback>>> =
        Executor::new(Quiet);
    let map: Callback = |value, event| value == event;
    let _task = emitter.listen_with(&mut executor, 7u8, map);

    assert_eq!(executor.process_tasks(1), vec![0]);
    let mut task = match executor.begin(0) {
        Some(task) => task,
        None => panic!("the task should run"),
    };
    assert!(task.map().call(7));
    assert!(!task.map().call(8));
}

/// A value that is gone.
struct Gone;

impl Upgrade for Gone {
    type Target = ();

    fn upgrade(&self) -> Option<()> {
        None
    }
}

#[test]
fn callback_without_its_value_is_not_called() {
    let mut calls = 0;
    let mut callback = WithWeak::new(Gone, |_: (), _: u8| {
        calls += 1;
        true
    });
    assert!(!callback.call(1));
    assert_eq!(calls, 0);
}

#[test]
fn once_of_a_stream_takes_what_the_stream_gives() {
    let mut once = SubscribeOnce::new('s');
    assert_eq!(*once.stream(), 's');
    assert_eq!(once.polled(Poll::Ready(Some(1))), Poll::Ready(1));
    assert_eq!(once.polled(Poll::<Option<u8>>::Pending), Poll::Pending);
}

#[test]
fn listener_takes_every_item_in_order_until_it_has_enough() {
    let mut listener = Listener::new((), ());
    let mut items = vec![
        Poll::Ready(Some(1)),
        Poll::Ready(Some(2)),
        Poll::Pending,
        Poll::Ready(Some(3)),
        Poll::Ready(Some(4)),
    ]
    .into_iter();
    let mut calls = Vec::new();
    let mut results = Vec::new();

    for _ in 0..4 {
        let mut step = listener.begin();
        results.push(loop {
            step = match step {
                ListenerStep::PollStream => listener.polled(items.next().unwrap()),
                ListenerStep::Call(item) => {
                    calls.push(item);
                    listener.called(item < 3)
                }
                ListenerStep::Return(polled) => break polled,
            };
        });
    }
    assert_eq!(calls, vec![1, 2, 3]);
    assert_eq!(
        results,
        vec![Poll::Pending, Poll::Ready(()), Poll::Ready(()), Poll::Ready(())]
    );
    assert_eq!(items.next(), Some(Poll::Ready(Some(4))));
}
