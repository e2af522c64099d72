use std::sync::{Arc, Mutex};
use std::task::{Poll, Wake, Waker};

use lamp_runtime::lock::AsyncMutex;

struct Counter(Mutex<usize>);

impl Wake for Counter {
    fn wake(self: Arc<Self>) {
        *self.0.lock().unwrap() += 1;
    }
}

impl Counter {
    fn get(&self) -> usize {
        *self.0.lock().unwrap()
    }
}

fn counting_waker() -> (Waker, Arc<Counter>) {
    let counter = Arc::new(Counter(Mutex::new(0)));
    (Waker::from(counter.clone()), counter)
}

fn noop_waker() -> Waker {
    counting_waker().0
}

fn wake_all(woken: &mut Vec<Waker>) {
    for waker in woken.drain(..) {
        waker.wake();
    }
}

fn ready<T>(polled: Poll<T>) -> T {
    match polled {
        Poll::Ready(value) => value,
        Poll::Pending => panic!("should be ready"),
    }
}

#[test]
fn lock_is_held_by_one_guard_at_a_time() {
    let mut mutex = AsyncMutex::new(1);
    let mut woken = Vec::new();
    let mut guard = ready(mutex.lock().poll(&mut mutex, noop_waker(), &mut woken));

    assert_eq!(*guard.deref(&mutex), 1);
    *guard.deref_mut(&mut mutex) = 2;
    assert!(matches!(mutex.lock().poll(&mut mutex, noop_waker(), &mut woken), Poll::Pending));
    assert!(matches!(mutex.lock_rc().poll(&mut mutex, noop_waker(), &mut woken), Poll::Pending));

    guard.drop(&mut mutex, &mut woken);
    let mut guard = ready(mutex.lock_rc().poll(&mut mutex, noop_waker(), &mut woken));
    assert_eq!(*guard.deref(&mutex), 2);
    *guard.deref_mut(&mut mutex) = 3;
    guard.drop(&mut mutex, &mut woken);
    let guard = ready(mutex.lock().poll(&mut mutex, noop_waker(), &mut woken));
    assert_eq!(*guard.deref(&mutex), 3);
}

#[test]
fn waiting_tasks_get_the_lock_one_after_another() {
    let mut mutex = AsyncMutex::new(());
    let mut woken = Vec::new();
    let guard = ready(mutex.lock().poll(&mut mutex, noop_waker(), &mut woken));
    let (first_waker, first_count) = counting_waker();
    let (second_waker, second_count) = counting_waker();
    let mut first = mutex.lock();
    let mut second = mutex.lock_rc();

    assert!(matches!(first.poll(&mut mutex, first_waker, &mut woken), Poll::Pending));
    assert!(matches!(second.poll(&mut mutex, second_waker, &mut woken), Poll::Pending));
    assert!(woken.is_empty());

    guard.drop(&mut mutex, &mut woken);
    wake_all(&mut woken);
    assert_eq!((first_count.get(), second_count.get()), (1, 0));

    let guard = ready(first.poll(&mut mutex, noop_waker(), &mut woken));
    wake_all(&mut woken);
    // Taking the lock notifies the next task, which finds it locked and waits again.
    assert_eq!((first_count.get(), second_count.get()), (1, 1));
    let (third_waker, third_count) = counting_waker();
    assert!(matches!(second.poll(&mut mutex, third_waker, &mut woken), Poll::Pending));

    guard.drop(&mut mutex, &mut woken);
    wake_all(&mut woken);
    assert_eq!(third_count.get(), 1);
    assert!(matches!(second.poll(&mut mutex, noop_waker(), &mut woken), Poll::Ready(_)));
}

#[test]
fn notified_task_that_gives_up_passes_its_turn_on() {
    let mut mutex = AsyncMutex::new(());
    let mut woken = Vec::new();
    let guard = ready(mutex.lock().poll(&mut mutex, noop_waker(), &mut woken));
    let mut first = mutex.lock();
    let mut second = mutex.lock_rc();
    let (waker, count) = counting_waker();

    assert!(matches!(first.poll(&mut mutex, noop_waker(), &mut woken), Poll::Pending));
    assert!(matches!(second.poll(&mut mutex, waker, &mut woken), Poll::Pending));
    guard.drop(&mut mutex, &mut woken);
    first.drop(&mut mutex, &mut woken);
    wake_all(&mut woken);
    assert_eq!(count.get(), 1);
    assert!(matches!(second.poll(&mut mutex, noop_waker(), &mut woken), Poll::Ready(_)));
}
