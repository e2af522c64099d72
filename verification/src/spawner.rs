//! What tasks are handed to.
use vstd::prelude::*;

use crate::upgrade::{Downgrade, Upgrade};

verus! {

/// Something that runs tasks of the type `F`.
pub trait Spawner<F>: Sized {
    /// The handle of a task that has been handed over.
    type Task: SpawnTask<Self>;

    /// Whether one more task can be handed over.
    open spec fn can_spawn(&self) -> bool {
        true
    }

    /// Whether handing `task` over may turn `self` into `after` and return `handle`.
    open spec fn spawns(&self, task: F, after: &Self, handle: Self::Task) -> bool {
        true
    }

    /// Hands a task over, to be run later.
    fn spawn(&mut self, task: F) -> (handle: Self::Task)
        requires
            old(self).can_spawn(),
        ensures
            old(self).spawns(task, final(self), handle),
    ;
}

/// The handle of a task that runs on `S`.
pub trait SpawnTask<S>: Sized {
    /// Whether the handle can be let go.
    open spec fn can_detach(&self, spawner: &S) -> bool {
        true
    }

    /// Whether letting the handle go may turn `spawner` into `after`.
    open spec fn detaches(&self, spawner: &S, after: &S) -> bool {
        true
    }

    /// Lets the handle go without stopping its task.
    fn detach(self, spawner: &mut S)
        requires
            self.can_detach(old(spawner)),
        ensures
            self.detaches(old(spawner), final(spawner)),
    ;
}

/// A task that starts when it is first run, if what it needs is still there then.
pub struct Deferred<S, W, F> {
    spawner: S,
    value: W,
    map: F,
}

impl<S, W, F> Deferred<S, W, F> {
    /// What the task is given to start with.
    pub closed spec fn view(&self) -> (S, W, F) {
        (self.spawner, self.value, self.map)
    }

    /// The task that `map` makes of `spawner` and of what `value` comes back as.
    pub fn new(spawner: S, value: W, map: F) -> (task: Self)
        ensures
            task@ == (spawner, value, map),
    {
        Deferred { spawner, value, map }
    }

    /// Starts the task. Nothing is started when what it needs is gone.
    pub fn start<U>(self) -> (started: Option<U>) where
        W: Upgrade,
        F: FnOnce(S, <W as Upgrade>::Target) -> U,

        requires
            forall|strong: <W as Upgrade>::Target|
                #[trigger] self@.1.upgrades(Some(strong)) ==> call_requires(
                    self@.2,
                    (self@.0, strong),
                ),
        ensures
            match started {
                Some(task) => exists|strong: <W as Upgrade>::Target|
                    #[trigger] self@.1.upgrades(Some(strong)) && call_ensures(
                        self@.2,
                        (self@.0, strong),
                        task,
                    ),
                None => self@.1.upgrades(None),
            },
    {
        match self.value.upgrade() {
            Some(strong) => {
                let map = self.map;
                let spawner = self.spawner;
                assert(self@ == (spawner, self.value, map));
                assert(self@.1.upgrades(Some(strong)));
                Some(map(spawner, strong))
            },
            None => None,
        }
    }
}

/// Ways to hand tasks over.
pub trait SpawnerExt: Clone + Sized {
    /// Hands over the task that `task` makes of a clone of the spawner.
    fn spawn_task<F, U>(&mut self, task: F) -> (handle: <Self as Spawner<U>>::Task) where
        Self: Spawner<U>,
        F: FnOnce(Self) -> U,

        requires
            old(self).can_spawn(),
            forall|this: Self| cloned(*old(self), this) ==> #[trigger] call_requires(task, (this,)),
        ensures
            exists|this: Self, made: U| cloned(*old(self), this) && #[trigger] call_ensures(
                task,
                (this,),
                made,
            ) && old(self).spawns(made, final(self), handle),
    {
        let made = task(self.clone());
        self.spawn(made)
    }

    /// Hands over a task that `map` makes of the spawner and of `value`, if `value` is still
    /// there when the task is first run. Until then nothing keeps it.
    fn spawn_with<W, F>(&mut self, value: W, map: F) -> (handle: <Self as Spawner<
        Deferred<Self, <W as Downgrade>::Target, F>,
    >>::Task) where
        W: Downgrade,
        Self: Spawner<Deferred<Self, <W as Downgrade>::Target, F>>,

        requires
            old(self).can_spawn(),
        ensures
            exists|task: Deferred<Self, <W as Downgrade>::Target, F>|
                cloned(*old(self), task@.0) && value.downgrades(task@.1) && task@.2 == map
                    && #[trigger] old(self).spawns(task, final(self), handle),
    {
        let task = Deferred::new(self.clone(), value.downgrade(), map);
        self.spawn(task)
    }
}

impl<T> SpawnerExt for T where T: Clone + Sized {

}

/// A spawner whose tasks are run in rounds.
pub trait DriverableSpawner<F>: Spawner<F> {
    /// The tasks of one round.
    type Round;

    /// Whether a round can be taken out.
    open spec fn can_tick(&self) -> bool {
        true
    }

    /// Whether taking out `round`, if there is one, may turn `self` into `after`.
    open spec fn ticks(&self, after: &Self, round: Option<Self::Round>) -> bool {
        true
    }

    /// Takes out the next round, if there is anything to run.
    fn tick(&mut self) -> (round: Option<Self::Round>)
        requires
            old(self).can_tick(),
        ensures
            old(self).ticks(final(self), round),
    ;
}

} // verus!
