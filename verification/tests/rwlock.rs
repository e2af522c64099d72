use std::sync::{Arc, Mutex};
use std::task::{Poll, Wake, Waker};

use lamp_runtime::lock::RwLock;

struct Counter(Mutex<usize>);

impl Wake for Counter {
    fn wake(self: Arc<Self>) {
        *self.0.lock().unwrap() += 1;
    }
}

impl Counter {
    fn get(&self) -> usize {
        *self.0.lock().unwrap()
    }
}

fn counting_waker() -> (Waker, Arc<Counter>) {
    let counter = Arc::new(Counter(Mutex::new(0)));
    (Waker::from(counter.clone()), counter)
}

fn noop_waker() -> Waker {
    counting_waker().0
}

fn wake_all(woken: &mut Vec<Waker>) {
    for waker in woken.drain(..) {
        waker.wake();
    }
}

fn ready<T>(polled: Poll<T>) -> T {
    match polled {
        Poll::Ready(value) => value,
        Poll::Pending => panic!("should be ready"),
    }
}

#[test]
fn read_and_write_succeed_without_contention() {
    let mut lock = RwLock::new(3usize);
    let mut woken = Vec::new();

    let read = ready(lock.read().poll(&mut lock, noop_waker(), &mut woken));
    assert_eq!(*read.deref(&lock), 3);
    read.drop(&mut lock, &mut woken);

    {
        let mut write = ready(lock.write().poll(&mut lock, noop_waker(), &mut woken));
        *write.deref_mut(&mut lock) = 8;
        write.drop(&mut lock, &mut woken);
    }

    let read = ready(lock.read().poll(&mut lock, noop_waker(), &mut woken));
    assert_eq!(*read.deref(&lock), 8);
}

#[test]
fn read_waits_for_active_writer_to_drop() {
    let mut lock = RwLock::new(11usize);
    let mut woken = Vec::new();
    let mut writer = ready(lock.write().poll(&mut lock, noop_waker(), &mut woken));
    let mut reader = lock.read();
    let (waker, wake_count) = counting_waker();

    assert!(matches!(reader.poll(&mut lock, waker, &mut woken), Poll::Pending));
    wake_all(&mut woken);
    assert_eq!(wake_count.get(), 0);

    *writer.deref_mut(&mut lock) = 12;
    writer.drop(&mut lock, &mut woken);
    wake_all(&mut woken);

    assert_eq!(wake_count.get(), 1);
    let reader = match reader.poll(&mut lock, noop_waker(), &mut woken) {
        Poll::Ready(reader) => reader,
        Poll::Pending => panic!("reader should be ready after writer drop"),
    };
    assert_eq!(*reader.deref(&lock), 12);
}

#[test]
fn write_waits_for_active_reader_to_drop() {
    let mut lock = RwLock::new(21usize);
    let mut woken = Vec::new();
    let reader = ready(lock.read().poll(&mut lock, noop_waker(), &mut woken));
    let mut writer = lock.write();
    let (waker, wake_count) = counting_waker();

    assert!(matches!(writer.poll(&mut lock, waker, &mut woken), Poll::Pending));
    wake_all(&mut woken);
    assert_eq!(wake_count.get(), 0);

    reader.drop(&mut lock, &mut woken);
    wake_all(&mut woken);

    assert_eq!(wake_count.get(), 1);
    let mut writer = match writer.poll(&mut lock, noop_waker(), &mut woken) {
        Poll::Ready(writer) => writer,
        Poll::Pending => panic!("writer should be ready after reader drop"),
    };
    *writer.deref_mut(&mut lock) = 34;
    writer.drop(&mut lock, &mut woken);

    let reader = ready(lock.read().poll(&mut lock, noop_waker(), &mut woken));
    assert_eq!(*reader.deref(&lock), 34);
}

#[test]
fn lock_method_returns_guard_that_can_mutate_value() {
    let mut lock = RwLock::new(5usize);
    let mut woken = Vec::new();

    {
        let mut guard = ready(lock.write_rc().poll(&mut lock, noop_waker(), &mut woken));
        *guard.deref_mut(&mut lock) = 99;
        guard.drop(&mut lock, &mut woken);
    }

    let reader = ready(lock.read().poll(&mut lock, noop_waker(), &mut woken));
    assert_eq!(*reader.deref(&lock), 99);
}

#[test]
fn lock_future_waits_until_reader_releases() {
    let mut lock = RwLock::new(1usize);
    let mut woken = Vec::new();
    let reader = ready(lock.read().poll(&mut lock, noop_waker(), &mut woken));
    let mut lock_future = lock.write_rc();
    let (waker, wake_count) = counting_waker();

    assert!(matches!(lock_future.poll(&mut lock, waker, &mut woken), Poll::Pending));
    wake_all(&mut woken);
    assert_eq!(wake_count.get(), 0);

    reader.drop(&mut lock, &mut woken);
    wake_all(&mut woken);

    assert_eq!(wake_count.get(), 1);
    let mut guard = match lock_future.poll(&mut lock, noop_waker(), &mut woken) {
        Poll::Ready(guard) => guard,
        Poll::Pending => panic!("lock future should be ready after reader drop"),
    };
    *guard.deref_mut(&mut lock) = 7;
    guard.drop(&mut lock, &mut woken);

    let reader = ready(lock.read().poll(&mut lock, noop_waker(), &mut woken));
    assert_eq!(*reader.deref(&lock), 7);
}

#[test]
fn lock_guard_blocks_writer_until_dropped() {
    let mut lock = RwLock::new(3usize);
    let mut woken = Vec::new();
    let guard = ready(lock.write_rc().poll(&mut lock, noop_waker(), &mut woken));
    let mut writer = lock.write();
    let (waker, wake_count) = counting_waker();

    assert!(matches!(writer.poll(&mut lock, waker, &mut woken), Poll::Pending));
    wake_all(&mut woken);
    assert_eq!(wake_count.get(), 0);

    guard.drop(&mut lock, &mut woken);
    wake_all(&mut woken);

    assert_eq!(wake_count.get(), 1);
    let mut writer = match writer.poll(&mut lock, noop_waker(), &mut woken) {
        Poll::Ready(writer) => writer,
        Poll::Pending => panic!("writer should be ready after lock guard drop"),
    };
    *writer.deref_mut(&mut lock) = 10;
    writer.drop(&mut lock, &mut woken);

    let reader = ready(lock.read().poll(&mut lock, noop_waker(), &mut woken));
    assert_eq!(*reader.deref(&lock), 10);
}

#[test]
fn readers_share_the_lock_and_keep_writers_out() {
    let mut lock = RwLock::new('a');
    let mut woken = Vec::new();
    let first = ready(lock.read().poll(&mut lock, noop_waker(), &mut woken));
    let second = ready(lock.read().poll(&mut lock, noop_waker(), &mut woken));
    let mut writer = lock.write();

    assert!(matches!(writer.poll(&mut lock, noop_waker(), &mut woken), Poll::Pending));
    first.drop(&mut lock, &mut woken);
    assert!(matches!(writer.poll(&mut lock, noop_waker(), &mut woken), Poll::Pending));
    second.drop(&mut lock, &mut woken);
    assert!(matches!(writer.poll(&mut lock, noop_waker(), &mut woken), Poll::Ready(_)));
    assert!(matches!(lock.read().poll(&mut lock, noop_waker(), &mut woken), Poll::Pending));
}

#[test]
fn shared_read_guard_is_out_alone() {
    let mut lock = RwLock::new(1);
    let mut woken = Vec::new();
    let mut guard = ready(lock.read_rc().poll(&mut lock, noop_waker(), &mut woken));

    assert!(matches!(lock.read().poll(&mut lock, noop_waker(), &mut woken), Poll::Pending));
    assert!(matches!(lock.read_rc().poll(&mut lock, noop_waker(), &mut woken), Poll::Pending));
    *guard.deref_mut(&mut lock) = 2;
    guard.drop(&mut lock, &mut woken);
    assert!(matches!(lock.read_rc().poll(&mut lock, noop_waker(), &mut woken), Poll::Ready(_)));
}

#[test]
fn every_waiting_reader_is_let_in_after_the_writer() {
    let mut lock = RwLock::new(0);
    let mut woken = Vec::new();
    let writer = ready(lock.write().poll(&mut lock, noop_waker(), &mut woken));
    let (first_waker, first_count) = counting_waker();
    let (second_waker, second_count) = counting_waker();
    let mut first = lock.read();
    let mut second = lock.read();

    assert!(matches!(first.poll(&mut lock, first_waker, &mut woken), Poll::Pending));
    assert!(matches!(second.poll(&mut lock, second_waker, &mut woken), Poll::Pending));
    writer.drop(&mut lock, &mut woken);
    wake_all(&mut woken);
    assert_eq!((first_count.get(), second_count.get()), (1, 0));

    assert!(matches!(first.poll(&mut lock, noop_waker(), &mut woken), Poll::Ready(_)));
    wake_all(&mut woken);
    assert_eq!((first_count.get(), second_count.get()), (1, 1));
    assert!(matches!(second.poll(&mut lock, noop_waker(), &mut woken), Poll::Ready(_)));
}

#[test]
fn future_that_is_given_up_passes_its_turn_on() {
    let mut lock = RwLock::new(0);
    let mut woken = Vec::new();
    let writer = ready(lock.write().poll(&mut lock, noop_waker(), &mut woken));
    let mut first = lock.write();
    let mut second = lock.write();
    let (waker, count) = counting_waker();

    assert!(matches!(first.poll(&mut lock, noop_waker(), &mut woken), Poll::Pending));
    assert!(matches!(second.poll(&mut lock, waker, &mut woken), Poll::Pending));
    writer.drop(&mut lock, &mut woken);
    wake_all(&mut woken);
    assert_eq!(count.get(), 0);

    first.drop(&mut lock, &mut woken);
    wake_all(&mut woken);
    assert_eq!(count.get(), 1);
    assert!(matches!(second.poll(&mut lock, noop_waker(), &mut woken), Poll::Ready(_)));
}

#[test]
fn guards_are_counted_over_a_long_run() {
    let mut lock = RwLock::new(0usize);
    let mut woken = Vec::new();
    let mut readers = Vec::new();
    let mut written = 0;

    for round in 0..30usize {
        if let Poll::Ready(guard) = lock.read().poll(&mut lock, noop_waker(), &mut woken) {
            assert_eq!(*guard.deref(&lock), written);
            readers.push(guard);
        }
        assert_eq!(lock.readers(), readers.len());
        if round % 5 == 4 {
            for guard in readers.drain(..) {
                guard.drop(&mut lock, &mut woken);
            }
        }
        let mut future = lock.write();
        match future.poll(&mut lock, noop_waker(), &mut woken) {
            Poll::Ready(mut guard) => {
                assert!(readers.is_empty());
                let mut reader = lock.read();
                assert!(matches!(
                    reader.poll(&mut lock, noop_waker(), &mut woken),
                    Poll::Pending
                ));
                reader.drop(&mut lock, &mut woken);
                *guard.deref_mut(&mut lock) = round;
                written = round;
                guard.drop(&mut lock, &mut woken);
            }
            Poll::Pending => {
                assert!(!readers.is_empty());
                future.drop(&mut lock, &mut woken);
            }
        }
    }
    assert_eq!(written, 29);
}
