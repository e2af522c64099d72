use std::sync::{Arc, Mutex};
use std::task::{Poll, Wake, Waker};

use lamp_runtime::util::next;
use lamp_runtime::waitgroup::WaitGroup;

struct Counter(Mutex<usize>);

impl Wake for Counter {
    fn wake(self: Arc<Self>) {
        *self.0.lock().unwrap() += 1;
    }
}

impl Counter {
    fn get(&self) -> usize {
        *self.0.lock().unwrap()
    }
}

fn counting_waker() -> (Waker, Arc<Counter>) {
    let counter = Arc::new(Counter(Mutex::new(0)));
    (Waker::from(counter.clone()), counter)
}

fn wake_all(woken: &mut Vec<Waker>) {
    for waker in woken.drain(..) {
        waker.wake();
    }
}

#[test]
fn tickets_are_counted() {
    let mut group = WaitGroup::default();
    assert!(group.is_empty());
    let first = group.add();
    let second = group.add();
    assert_eq!(group.len(), 2);
    first.drop(&mut group, &mut Vec::new());
    assert_eq!(group.len(), 1);
    second.drop(&mut group, &mut Vec::new());
    assert!(group.is_empty());
}

#[test]
fn waiting_for_an_empty_group_ends_at_once() {
    let mut group = WaitGroup::new();
    let mut wait = group.wait();
    assert_eq!(wait.poll(&mut group, counting_waker().0), Poll::Ready(()));
}

#[test]
fn waiting_ends_with_the_last_ticket() {
    let mut group = WaitGroup::new();
    let first = group.add();
    let second = group.add();
    let (waker, count) = counting_waker();
    let mut woken = Vec::new();
    let mut wait = group.wait();

    assert_eq!(wait.poll(&mut group, waker.clone()), Poll::Pending);
    first.drop(&mut group, &mut woken);
    wake_all(&mut woken);
    assert_eq!(count.get(), 1);
    assert_eq!(wait.poll(&mut group, waker.clone()), Poll::Pending);
    second.drop(&mut group, &mut woken);
    wake_all(&mut woken);
    assert_eq!(count.get(), 2);
    assert_eq!(wait.poll(&mut group, waker), Poll::Ready(()));
}

#[test]
fn waiting_can_be_given_up() {
    let mut group = WaitGroup::new();
    let ticket = group.add();
    let mut woken = Vec::new();
    let mut wait = group.wait();
    assert_eq!(wait.poll(&mut group, counting_waker().0), Poll::Pending);
    wait.drop(&mut group, &mut woken);
    ticket.drop(&mut group, &mut woken);
    assert!(woken.is_empty());
}

#[test]
fn next_borrows_its_stream() {
    let mut stream = 1;
    {
        let future = next(&mut stream);
        *future.stream += 1;
    }
    assert_eq!(stream, 2);
}
