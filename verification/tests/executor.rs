use std::cell::RefCell;
use std::future;
use std::future::Future;
use std::pin::Pin;
use std::rc::Rc;
use std::sync::{Arc, Mutex};
use std::task::{Context, Poll, Wake, Waker};

use lamp_runtime::emitter::{
    Emitter, EmitterStream, EventEmitter, EventTargetExt, Listener, ListenerStep,
};
use lamp_runtime::executor::{EventLoopWaker, Executor};
use lamp_runtime::spawner::{DriverableSpawner, SpawnTask, Spawner};

#[derive(Default)]
struct TestWaker {
    wake_count: usize,
}

impl EventLoopWaker for TestWaker {
    fn wake(&mut self) {
        self.wake_count += 1;
    }
}

type BoxFuture = Pin<Box<dyn Future<Output = ()>>>;

/// Remembers the tasks that are to be scheduled again.
#[derive(Clone, Default)]
struct Wakeups(Arc<Mutex<Vec<usize>>>);

struct TaskWaker {
    id: usize,
    wakeups: Wakeups,
}

impl Wake for TaskWaker {
    fn wake(self: Arc<Self>) {
        self.wakeups.0.lock().unwrap().push(self.id);
    }
}

impl Wakeups {
    fn waker(&self, id: usize) -> Waker {
        Waker::from(Arc::new(TaskWaker {
            id,
            wakeups: self.clone(),
        }))
    }

    fn schedule<F>(&self, executor: &mut Executor<TestWaker, F>) {
        for id in self.0.lock().unwrap().drain(..) {
            executor.schedule(id);
        }
    }
}

fn run(executor: &mut Executor<TestWaker, BoxFuture>, wakeups: &Wakeups, count: usize) {
    for id in executor.process_tasks(count) {
        if let Some(mut future) = executor.begin(id) {
            let waker = wakeups.waker(id);
            let ready = future
                .as_mut()
                .poll(&mut Context::from_waker(&waker))
                .is_ready();
            wakeups.schedule(executor);
            let _ = executor.finish(id, future, ready);
        }
    }
}

type Callback = Box<dyn FnMut(usize) -> bool>;
type ListenerTask = Listener<EmitterStream<usize>, Callback>;

fn poll_listener(task: &mut ListenerTask, emitter: &mut Emitter<usize>, waker: &Waker) -> Poll<()> {
    let mut step = task.begin();
    loop {
        step = match step {
            ListenerStep::PollStream => {
                let polled = task.stream().poll_next(emitter, waker.clone());
                task.polled(polled)
            }
            ListenerStep::Call(value) => {
                let more = (task.map())(value);
                task.called(more)
            }
            ListenerStep::Return(polled) => return polled,
        };
    }
}

fn run_listeners(
    executor: &mut Executor<TestWaker, ListenerTask>,
    emitter: &mut Emitter<usize>,
    wakeups: &Wakeups,
    count: usize,
) {
    for id in executor.process_tasks(count) {
        if let Some(mut task) = executor.begin(id) {
            let ready = poll_listener(&mut task, emitter, &wakeups.waker(id)).is_ready();
            let _ = executor.finish(id, task, ready);
        }
    }
}

fn emit(
    emitter: &mut Emitter<usize>,
    executor: &mut Executor<TestWaker, ListenerTask>,
    wakeups: &Wakeups,
    value: usize,
) {
    let mut woken = Vec::new();
    emitter.emit(value, &mut woken);
    for waker in woken {
        waker.wake();
    }
    wakeups.schedule(executor);
}

#[test]
fn spawn_schedules_task_and_wakes_event_loop() {
    let wakeups = Wakeups::default();
    let mut executor: Executor<TestWaker, BoxFuture> = Executor::new(TestWaker::default());
    let task = executor.spawn(Box::pin(future::ready(())));

    assert_eq!(executor.waker().wake_count, 1);
    assert!(executor.has_tasks());

    task.detach(&mut executor);
    run(&mut executor, &wakeups, 1);
    assert!(!executor.has_tasks());
}

#[test]
fn process_tasks_respects_count_limit() {
    let wakeups = Wakeups::default();
    let mut executor: Executor<TestWaker, BoxFuture> = Executor::new(TestWaker::default());
    let output = Rc::new(RefCell::new(Vec::new()));

    let first_output = output.clone();
    executor
        .spawn(Box::pin(async move {
            first_output.borrow_mut().push(1);
        }))
        .detach(&mut executor);

    let second_output = output.clone();
    executor
        .spawn(Box::pin(async move {
            second_output.borrow_mut().push(2);
        }))
        .detach(&mut executor);

    run(&mut executor, &wakeups, 1);
    assert_eq!(output.borrow().as_slice(), &[1]);
    assert!(executor.has_tasks());

    run(&mut executor, &wakeups, 1);
    assert_eq!(output.borrow().as_slice(), &[1, 2]);
    assert!(!executor.has_tasks());
}

#[test]
fn tasks_run_in_spawn_order() {
    let wakeups = Wakeups::default();
    let mut executor: Executor<TestWaker, BoxFuture> = Executor::new(TestWaker::default());
    let output = Rc::new(RefCell::new(vec![]));

    for value in [1, 2, 3] {
        let output = output.clone();
        executor
            .spawn(Box::pin(async move {
                output.borrow_mut().push(value);
            }))
            .detach(&mut executor);
    }

    run(&mut executor, &wakeups, 3);

    assert_eq!(output.borrow().as_slice(), &[1, 2, 3]);
}

#[test]
fn processing_tasks_allows_rescheduling_while_running() {
    let wakeups = Wakeups::default();
    let mut executor: Executor<TestWaker, ListenerTask> = Executor::new(TestWaker::default());
    let output = Rc::new(RefCell::new(Vec::new()));

    let mut emitter = Emitter::new();
    let captured = output.clone();
    let map: Callback = Box::new(move |value| {
        captured.borrow_mut().push(value);
        value < 2
    });
    let _task = emitter.listen(&mut executor, map);

    run_listeners(&mut executor, &mut emitter, &wakeups, 1);
    assert!(output.borrow().is_empty());
    assert!(!executor.has_tasks());

    emit(&mut emitter, &mut executor, &wakeups, 1);
    assert!(executor.has_tasks());

    run_listeners(&mut executor, &mut emitter, &wakeups, 1);
    assert_eq!(output.borrow().as_slice(), &[1]);
    assert!(!executor.has_tasks());

    emit(&mut emitter, &mut executor, &wakeups, 2);
    assert!(executor.has_tasks());

    run_listeners(&mut executor, &mut emitter, &wakeups, 1);
    assert_eq!(output.borrow().as_slice(), &[1, 2]);
    assert!(!executor.has_tasks());

    emit(&mut emitter, &mut executor, &wakeups, 3);
    assert!(!executor.has_tasks());
    assert_eq!(output.borrow().as_slice(), &[1, 2]);
    assert_eq!(executor.waker().wake_count, 3);
}

#[test]
fn listen_on_processes_events_and_stops_when_callback_returns_false() {
    let wakeups = Wakeups::default();
    let mut emitter = Emitter::new();
    let mut executor: Executor<TestWaker, ListenerTask> = Executor::new(TestWaker::default());
    let seen = Rc::new(RefCell::new(Vec::new()));

    let captured = seen.clone();
    let map: Callback = Box::new(move |value| {
        captured.borrow_mut().push(value);
        value < 2
    });
    let _task = emitter.listen(&mut executor, map);

    assert_eq!(executor.waker().wake_count, 1);
    assert!(executor.has_tasks());

    run_listeners(&mut executor, &mut emitter, &wakeups, 1);
    assert!(!executor.has_tasks());
    assert!(seen.borrow().is_empty());

    emit(&mut emitter, &mut executor, &wakeups, 1);
    assert_eq!(executor.waker().wake_count, 2);
    assert!(executor.has_tasks());

    run_listeners(&mut executor, &mut emitter, &wakeups, 1);
    assert_eq!(seen.borrow().as_slice(), &[1]);
    assert!(!executor.has_tasks());

    emit(&mut emitter, &mut executor, &wakeups, 2);
    assert_eq!(executor.waker().wake_count, 3);
    assert!(executor.has_tasks());

    run_listeners(&mut executor, &mut emitter, &wakeups, 1);
    assert_eq!(seen.borrow().as_slice(), &[1, 2]);
    assert!(!executor.has_tasks());

    emit(&mut emitter, &mut executor, &wakeups, 3);
    assert_eq!(executor.waker().wake_count, 3);
    assert!(!executor.has_tasks());
    assert_eq!(seen.borrow().as_slice(), &[1, 2]);
}

#[test]
fn task_is_queued_once_until_it_runs() {
    let mut executor: Executor<TestWaker, char> = Executor::new(TestWaker::default());
    executor.spawn('a').detach(&mut executor);

    executor.schedule(0);
    assert_eq!(executor.waker().wake_count, 1);
    assert_eq!(executor.process_tasks(usize::MAX), vec![0]);

    // Still to run in this round.
    executor.schedule(0);
    assert!(!executor.has_tasks());

    assert_eq!(executor.begin(0), Some('a'));
    executor.schedule(0);
    assert!(executor.has_tasks());
    assert_eq!(executor.finish(0, 'a', false), None);
    assert_eq!(executor.process_tasks(5), vec![0]);
    assert_eq!(executor.begin(0), Some('a'));
}

#[test]
fn dropped_handle_cancels_its_task() {
    let mut executor: Executor<TestWaker, char> = Executor::new(TestWaker::default());
    let task = executor.spawn('a');

    assert_eq!(task.drop(&mut executor), Some('a'));
    assert_eq!(executor.process_tasks(1), vec![0]);
    assert_eq!(executor.begin(0), None);
    executor.schedule(0);
    assert!(!executor.has_tasks());
    assert_eq!(executor.cancel(0), None);
}

#[test]
fn task_canceled_while_running_is_not_kept() {
    let mut executor: Executor<TestWaker, char> = Executor::new(TestWaker::default());
    let task = executor.spawn('a');

    assert_eq!(executor.process_tasks(1), vec![0]);
    assert_eq!(executor.begin(0), Some('a'));
    assert_eq!(task.drop(&mut executor), None);
    assert_eq!(executor.finish(0, 'a', false), Some('a'));
    assert_eq!(executor.begin(0), None);
}

#[test]
fn completed_task_is_never_queued_again() {
    let mut executor: Executor<TestWaker, char> = Executor::new(TestWaker::default());
    executor.block_on('a');

    assert_eq!(executor.tick(), Some(vec![0]));
    assert_eq!(executor.begin(0), Some('a'));
    assert_eq!(executor.finish(0, 'a', true), Some('a'));
    executor.schedule(0);
    assert_eq!(executor.tick(), None);
    assert_eq!(executor.waker().wake_count, 1);
}

#[test]
fn released_task_is_forgotten_unless_it_waits_for_its_turn() {
    let mut executor: Executor<TestWaker, char> = Executor::new(TestWaker::default());
    executor.spawn('a').detach(&mut executor);
    executor.spawn('b').detach(&mut executor);

    assert_eq!(executor.release(0), None);
    assert_eq!(executor.process_tasks(1), vec![0]);
    assert_eq!(executor.begin(0), Some('a'));
    assert_eq!(executor.finish(0, 'a', false), None);
    assert_eq!(executor.release(0), Some('a'));
    assert_eq!(executor.release(0), None);
    executor.schedule(0);
    assert_eq!(executor.tick(), Some(vec![1]));
    assert_eq!(executor.begin(1), Some('b'));
}

#[test]
fn detached_task_outlives_its_handle() {
    let mut executor: Executor<TestWaker, char> = Executor::new(TestWaker::default());
    assert!(executor.can_take());
    let task = executor.spawn('a');
    assert_eq!(task.id(), Some(0));
    task.detach(&mut executor);

    assert_eq!(executor.process_tasks(1), vec![0]);
    assert_eq!(executor.begin(0), Some('a'));
    assert_eq!(executor.finish(0, 'a', false), None);
    executor.schedule(0);
    assert_eq!(executor.process_tasks(1), vec![0]);
    assert_eq!(executor.begin(0), Some('a'));
}

#[test]
fn task_that_is_blocked_on_comes_last_in_the_first_round() {
    let mut executor: Executor<TestWaker, char> = Executor::new(TestWaker::default());
    executor.spawn('a').detach(&mut executor);
    executor.block_on('b');

    assert_eq!(executor.tick(), Some(vec![0, 1]));
    assert_eq!(executor.tick(), None);
    assert_eq!(executor.begin(1), Some('b'));
    assert_eq!(executor.finish(1, 'c', false), None);
    executor.schedule(1);
    assert_eq!(executor.tick(), Some(vec![1]));
    assert_eq!(executor.begin(1), Some('c'));
    assert_eq!(executor.finish(1, 'c', true), Some('c'));
    executor.schedule(1);
    assert_eq!(executor.tick(), None);
}

#[test]
fn turn_is_kept_while_other_tasks_come_and_go() {
    let mut executor: Executor<TestWaker, char> = Executor::new(TestWaker::default());
    for task in ['a', 'b', 'c'] {
        executor.spawn(task).detach(&mut executor);
    }

    assert_eq!(executor.process_tasks(2), vec![0, 1]);
    assert_eq!(executor.begin(0), Some('a'));
    executor.schedule(0);
    assert_eq!(executor.finish(0, 'a', true), Some('a'));
    assert_eq!(executor.release(0), None);
    executor.schedule(1);
    executor.spawn('d').detach(&mut executor);
    assert_eq!(executor.process_tasks(usize::MAX), vec![2, 0, 3]);
    assert_eq!(executor.begin(0), None);
    assert_eq!(executor.begin(1), Some('b'));
}
