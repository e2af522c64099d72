use std::rc::{Rc, Weak};

use lamp_runtime::executor::{EventLoopWaker, Executor};
use lamp_runtime::spawner::{Deferred, SpawnTask, Spawner, SpawnerExt};
use lamp_runtime::{Atom, Downgrade, Upgrade, WeakAtom};

#[test]
fn plain_values_always_come_back() {
    assert_eq!(7u8.downgrade().upgrade(), Some(7));
    assert_eq!((-7i64).downgrade().upgrade(), Some(-7));
    assert_eq!(true.downgrade().upgrade(), Some(true));
    assert_eq!('x'.downgrade().upgrade(), Some('x'));
    let mut value = 3usize;
    assert_eq!((&value).downgrade(), 3);
    assert_eq!((&mut value).upgrade(), Some(3));
}

#[test]
fn options_come_back_as_options() {
    let some: Option<u8> = Some(1);
    let none: Option<u8> = None;
    assert_eq!(some.downgrade(), Some(1));
    assert_eq!(some.upgrade(), Some(Some(1)));
    assert_eq!(none.upgrade(), None);
}

/// A value that is gone.
struct Gone;

impl Upgrade for Gone {
    type Target = ();

    fn upgrade(&self) -> Option<()> {
        None
    }
}

#[test]
fn tuples_come_back_if_all_parts_do() {
    assert_eq!((1u8,).upgrade(), Some((1,)));
    assert_eq!((1u8, 'a', true).downgrade(), (1, 'a', true));
    assert_eq!((1u8, 'a', true).upgrade(), Some((1, 'a', true)));
    assert_eq!((1u8, Gone).upgrade(), None);
    assert_eq!((Gone, 1u8, 2u8, 3u8).upgrade(), None);
    let many = (1u8, 2u8, 3u8, 4u8, 5u8, 6u8, 7u8, 8u8, 9u8, 10u8, 11u8, 12u8);
    assert_eq!(many.upgrade(), Some(many));
}

#[test]
fn atoms_are_compared_by_their_text() {
    let atom = Atom::new("name");
    assert_eq!(atom.as_str(), "name");
    assert_eq!(atom.to_string(), "name".to_owned());
    assert!(atom == Atom::from("name"));
    assert!(atom == Atom::from(String::from("name")));
    assert!(atom != Atom::new("other"));
    assert!(atom == *"name");
    assert!(*"name" == atom);
    assert!(*"nam" != atom);
    assert_eq!(atom.len(), 4);
    assert_eq!(atom.as_ref().len(), 4);
}

#[test]
fn atoms_share_their_text() {
    let atom = Atom::new("shared");
    let again = Atom::from_shared(Rc::clone(atom.as_shared()));
    assert!(Rc::ptr_eq(atom.as_shared(), again.as_shared()));
    assert!(atom == again);
}

#[derive(Clone)]
struct Quiet;

impl EventLoopWaker for Quiet {
    fn wake(&mut self) {}
}

/// A spawner that remembers what it was handed.
#[derive(Clone, Default)]
struct Collect<F>(Vec<F>);

struct Handle;

impl<F> SpawnTask<Collect<F>> for Handle {
    fn detach(self, _spawner: &mut Collect<F>) {}
}

impl<F> Spawner<F> for Collect<F> {
    type Task = Handle;

    fn spawn(&mut self, task: F) -> Handle {
        self.0.push(task);
        Handle
    }
}

#[test]
fn spawn_task_makes_the_task_of_a_clone() {
    let mut spawner: Collect<usize> = Collect(vec![5, 6]);
    spawner
        .spawn_task(|this: Collect<usize>| this.0.len())
        .detach(&mut spawner);
    assert_eq!(spawner.0, vec![5, 6, 2]);
}

/// A spawner for deferred tasks, which keeps how each of them starts.
#[derive(Clone, Default)]
struct Start(Vec<Option<u8>>);

struct StartHandle;

impl SpawnTask<Start> for StartHandle {
    fn detach(self, _spawner: &mut Start) {}
}

type Make = fn(Start, u8) -> u8;

impl Spawner<Deferred<Start, u8, Make>> for Start {
    type Task = StartHandle;

    fn spawn(&mut self, task: Deferred<Start, u8, Make>) -> StartHandle {
        self.0.push(task.start());
        StartHandle
    }
}

#[test]
fn spawn_with_starts_what_is_still_there() {
    let mut spawner = Start::default();
    let make: Make = |_, value| value + 1;
    spawner.spawn_with(4u8, make).detach(&mut spawner);
    assert_eq!(spawner.0, vec![Some(5)]);
}

#[test]
fn executor_takes_tasks_of_any_type() {
    let mut executor: Executor<Quiet, &str> = Executor::new(Quiet);
    let task = executor.spawn("task");
    assert_eq!(executor.process_tasks(9), vec![0]);
    assert_eq!(executor.begin(0), Some("task"));
    task.detach(&mut executor);
}

#[test]
fn nothing_is_started_for_a_value_that_is_gone() {
    assert_eq!(Deferred::new('s', Gone, |_, _| 1).start(), None);
    assert_eq!(Deferred::new('s', 2u8, |spawner, value| (spawner, value)).start(), Some(('s', 2)));
}

#[derive(Clone)]
struct WeakText(Weak<str>);

impl Upgrade for WeakText {
    type Target = Rc<str>;

    fn upgrade(&self) -> Option<Rc<str>> {
        self.0.upgrade()
    }
}

#[test]
fn atom_comes_back_while_its_text_is_held() {
    let atom = Atom::new("text");
    let weak = WeakAtom::new(WeakText(Rc::downgrade(atom.as_shared())));

    match weak.clone().upgrade() {
        Some(back) => {
            assert!(back == atom);
            assert_eq!(back.as_str(), "text");
        }
        None => panic!("the text is still held"),
    }
    drop(atom);
    assert!(weak.upgrade().is_none());
}
