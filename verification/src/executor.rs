//! An executor for tasks on one thread.
//!
//! The executor keeps the tasks and decides which of them run, and in what order; running a
//! task is up to the caller, who gets the tasks of a round, begins each of them, polls it, and
//! reports the outcome.
use vstd::prelude::*;

pub mod exact;

use crate::spawner::{DriverableSpawner, SpawnTask, Spawner};

verus! {

/// Something that can wake the event loop up when a task is scheduled.
pub trait EventLoopWaker: Sized {
    /// Whether waking the event loop once may turn `self` into `after`.
    open spec fn wakes(&self, after: &Self) -> bool {
        true
    }

    /// Wakes the event loop.
    fn wake(&mut self)
        ensures
            old(self).wakes(final(self)),
    ;
}

/// A task.
pub struct TaskCell<F> {
    /// The task's number; later tasks have larger numbers.
    pub id: usize,
    /// What the task runs. It is taken out while it is being polled.
    pub future: Option<F>,
    /// Prevents the same task from being enqueued multiple times before it is polled.
    pub queued: bool,
    /// Detached tasks keep running even if their handle is dropped.
    pub detached: bool,
    /// Canceled tasks drop their future and ignore any later wake-ups.
    pub canceled: bool,
    /// Completed tasks should never be queued again.
    pub completed: bool,
}

impl<F> TaskCell<F> {
    /// Whether the task may still run.
    pub open spec fn live(&self) -> bool {
        !self.canceled && !self.completed
    }

    /// Whether the task can be put into the queue.
    pub open spec fn schedulable(&self) -> bool {
        !self.queued && self.live()
    }
}

/// What an executor holds.
#[verifier::ext_equal]
#[verifier::reject_recursive_types(F)]
pub struct ExecutorView<T, F> {
    /// The tasks, by growing number.
    pub cells: Seq<TaskCell<F>>,
    /// The number that the next task gets.
    pub next_id: usize,
    /// The numbers of the tasks to run, in this order.
    pub tasks: Seq<usize>,
    /// Wakes the event loop.
    pub waker: T,
}

impl<T, F> ExecutorView<T, F> {
    /// Numbers grow from each task to the next; no task is queued twice; and a queued task
    /// knows that it is.
    pub open spec fn wf(self) -> bool {
        &&& forall|i: int, j: int|
            0 <= i < j < self.cells.len() ==> #[trigger] self.cells[i].id
                < #[trigger] self.cells[j].id
        &&& forall|i: int|
            0 <= i < self.cells.len() ==> (#[trigger] self.cells[i]).id < self.next_id
        &&& self.tasks.no_duplicates()
        &&& forall|i: int| 0 <= i < self.tasks.len() ==> #[trigger] self.tasks[i] < self.next_id
        &&& forall|i: int|
            0 <= i < self.cells.len() && self.tasks.contains((#[trigger] self.cells[i]).id)
                ==> self.cells[i].queued
    }

    /// Whether the task with this number is still known.
    pub open spec fn has(self, id: usize) -> bool {
        exists|i: int| 0 <= i < self.cells.len() && (#[trigger] self.cells[i]).id == id
    }

    /// Where the task with this number stands.
    pub open spec fn position(self, id: usize) -> int {
        choose|i: int| 0 <= i < self.cells.len() && (#[trigger] self.cells[i]).id == id
    }

    /// The task with this number.
    pub open spec fn cell(self, id: usize) -> TaskCell<F> {
        self.cells[self.position(id)]
    }

    /// `self` with another state of the task with this number.
    pub open spec fn with_cell(self, id: usize, cell: TaskCell<F>) -> ExecutorView<T, F> {
        ExecutorView { cells: self.cells.update(self.position(id), cell), ..self }
    }

    /// Whether the task with this number is known and can be put into the queue.
    pub open spec fn schedulable(self, id: usize) -> bool {
        self.has(id) && self.cell(id).schedulable()
    }

    /// Whether the task with this number is known and may still run.
    pub open spec fn live(self, id: usize) -> bool {
        self.has(id) && self.cell(id).live()
    }

    /// Whether `after` is `self` with the task of this number scheduled: a task that is not
    /// queued yet and may still run joins the queue, and the event loop is woken; otherwise
    /// nothing happens.
    pub open spec fn schedules(self, id: usize, after: ExecutorView<T, F>) -> bool where
        T: EventLoopWaker {
        if self.schedulable(id) {
            &&& self.waker.wakes(&after.waker)
            &&& after == (ExecutorView {
                tasks: self.tasks.push(id),
                waker: after.waker,
                ..self.with_cell(id, TaskCell { queued: true, ..self.cell(id) })
            })
        } else {
            after == self
        }
    }

    /// `self` with a new task, which waits in the queue or not, detached or not.
    pub open spec fn with_task(
        self,
        future: F,
        queued: bool,
        detached: bool,
    ) -> ExecutorView<T, F> {
        ExecutorView {
            cells: self.cells.push(
                TaskCell {
                    id: self.next_id,
                    future: Some(future),
                    queued,
                    detached,
                    canceled: false,
                    completed: false,
                },
            ),
            next_id: (self.next_id + 1) as usize,
            tasks: if queued {
                self.tasks.push(self.next_id)
            } else {
                self.tasks
            },
            ..self
        }
    }

    /// Whether `after` is `self` with a new task that waits in the queue, detached, and the event
    /// loop woken.
    pub open spec fn blocks_on(self, future: F, after: ExecutorView<T, F>) -> bool where
        T: EventLoopWaker {
        &&& self.waker.wakes(&after.waker)
        &&& after == (ExecutorView { waker: after.waker, ..self.with_task(future, true, true) })
    }

    /// How many tasks a round for up to `count` tasks takes.
    pub open spec fn round(self, count: usize) -> int {
        if count <= self.tasks.len() {
            count as int
        } else {
            self.tasks.len() as int
        }
    }

    /// Whether the task with this number has been taken out with a round and not begun yet: it is
    /// not in the queue, and if it is still known, it cannot get back there.
    pub open spec fn awaits_turn(self, id: usize) -> bool {
        &&& id < self.next_id
        &&& !self.tasks.contains(id)
        &&& self.has(id) ==> self.cell(id).queued
    }

    /// `self` once a task has begun to be polled.
    pub open spec fn begun(self, id: usize) -> ExecutorView<T, F> {
        if self.live(id) {
            self.with_cell(id, TaskCell { queued: false, future: None, ..self.cell(id) })
        } else {
            self
        }
    }

    /// `self` once a task has been polled, with the outcome `ready`.
    pub open spec fn finished(self, id: usize, future: F, ready: bool) -> ExecutorView<T, F> {
        if !self.has(id) {
            self
        } else if ready {
            self.with_cell(id, TaskCell { completed: true, ..self.cell(id) })
        } else if self.cell(id).canceled {
            self
        } else {
            self.with_cell(id, TaskCell { future: Some(future), ..self.cell(id) })
        }
    }

    /// `self` once a task has been canceled.
    pub open spec fn canceled(self, id: usize) -> ExecutorView<T, F> {
        if self.has(id) {
            self.with_cell(
                id,
                TaskCell {
                    canceled: true,
                    future: if self.cell(id).live() {
                        None
                    } else {
                        self.cell(id).future
                    },
                    ..self.cell(id)
                },
            )
        } else {
            self
        }
    }

    /// `self` once the handle of the task with this number, if it still belongs to one, has been
    /// let go without stopping the task.
    pub open spec fn handle_detached(self, handle: Option<usize>) -> ExecutorView<T, F> {
        match handle {
            Some(id) if self.has(id) => self.with_cell(
                id,
                TaskCell { detached: true, ..self.cell(id) },
            ),
            _ => self,
        }
    }

    /// `self` once the handle of the task with this number, if it still belongs to one, has been
    /// given back: the task is canceled unless it is detached.
    pub open spec fn handle_dropped(self, handle: Option<usize>) -> ExecutorView<T, F> {
        match handle {
            Some(id) if self.has(id) && !self.cell(id).detached => self.canceled(id),
            _ => self,
        }
    }

    /// `self` without the task with this number.
    pub open spec fn without_cell(self, id: usize) -> ExecutorView<T, F> {
        ExecutorView { cells: self.cells.remove(self.position(id)), ..self }
    }

    /// `self` without its next round, of up to `count` tasks.
    pub open spec fn after_round(self, count: usize) -> ExecutorView<T, F> {
        ExecutorView { tasks: self.tasks.skip(self.round(count)), ..self }
    }

    /// Whether nothing but the outside refers to the task with this number: it does not wait
    /// in the queue for its turn.
    pub open spec fn releasable(self, id: usize) -> bool {
        self.has(id) && !(self.cell(id).live() && self.cell(id).queued)
    }
}

/// An executor.
pub struct Executor<T, F> {
    // All tasks that something may still refer to.
    cells: Vec<TaskCell<F>>,
    next_id: usize,
    // The queue stores task numbers so a task can be rescheduled while others run.
    tasks: Vec<usize>,
    waker: T,
}

impl<T, F> View for Executor<T, F> {
    type V = ExecutorView<T, F>;

    closed spec fn view(&self) -> ExecutorView<T, F> {
        ExecutorView {
            cells: self.cells@,
            next_id: self.next_id,
            tasks: self.tasks@,
            waker: self.waker,
        }
    }
}

proof fn lemma_position<T, F>(executor: ExecutorView<T, F>, i: int)
    requires
        executor.wf(),
        0 <= i < executor.cells.len(),
    ensures
        executor.has(executor.cells[i].id),
        executor.position(executor.cells[i].id) == i,
{
}

impl<T, F> Executor<T, F> {
    /// The invariant of an executor.
    pub open spec fn wf(&self) -> bool {
        self@.wf()
    }

    /// Whether one more task can get a number.
    pub fn can_take(&self) -> (can: bool)
        ensures
            can == (self@.next_id < usize::MAX),
    {
        self.next_id < usize::MAX
    }

    /// What wakes the event loop.
    pub fn waker(&self) -> (waker: &T)
        ensures
            *waker == self@.waker,
    {
        &self.waker
    }

    /// Where the task with the given number stands, if it is known.
    fn find(&self, id: usize) -> (found: Option<usize>)
        requires
            self.wf(),
        ensures
            match found {
                Some(i) => self@.has(id) && i == self@.position(id) && i < self@.cells.len(),
                None => !self@.has(id),
            },
    {
        let mut low: usize = 0;
        let mut high: usize = self.cells.len();
        while low < high
            invariant
                self.wf(),
                low <= high <= self.cells@.len(),
                forall|i: int| 0 <= i < low ==> (#[trigger] self.cells@[i]).id < id,
                forall|i: int|
                    high <= i < self.cells@.len() ==> id < (#[trigger] self.cells@[i]).id,
            decreases high - low,
        {
            let middle: usize = low + (high - low) / 2;
            let candidate: usize = self.cells[middle].id;
            if candidate == id {
                assert(self@.cells[middle as int].id == id);
                return Some(middle);
            } else if candidate < id {
                low = middle + 1;
            } else {
                high = middle;
            }
        }
        None
    }

    /// Takes out the next round, of up to `count` tasks. They are to be run in the order in
    /// which they were scheduled.
    pub fn process_tasks(&mut self, count: usize) -> (round: Vec<usize>)
        requires
            old(self).wf(),
        ensures
            final(self).wf(),
            round@ == old(self)@.tasks.take(old(self)@.round(count)),
            final(self)@ == old(self)@.after_round(count),
    {
        let count: usize = if count <= self.tasks.len() {
            count
        } else {
            self.tasks.len()
        };
        let mut round = self.tasks.split_off(count);
        core::mem::swap(&mut round, &mut self.tasks);
        proof {
            assert(self@.tasks =~= old(self)@.tasks.skip(count as int));
            assert(round@ =~= old(self)@.tasks.take(count as int));
            assert forall|id: usize| self@.tasks.contains(id) implies #[trigger] old(
                self,
            )@.tasks.contains(id) by {
                let i = self@.tasks.index_of(id);
                assert(old(self)@.tasks[i + count] == id);
            }
            assert forall|i: int| 0 <= i < self@.tasks.len() implies #[trigger] self@.tasks[i]
                < self@.next_id by {
                assert(self@.tasks[i] == old(self)@.tasks[i + count]);
            }
        }
        round
    }

    /// Whether there are any tasks in the queue.
    pub fn has_tasks(&self) -> (has: bool)
        ensures
            has == (self@.tasks.len() > 0),
    {
        self.tasks.len() > 0
    }

    /// Begins to run a task of a round: hands out what it runs, if it may still run.
    pub fn begin(&mut self, id: usize) -> (future: Option<F>)
        requires
            old(self).wf(),
            !old(self)@.tasks.contains(id),
        ensures
            final(self).wf(),
            final(self)@ == old(self)@.begun(id),
            future == (if old(self)@.live(id) {
                old(self)@.cell(id).future
            } else {
                None
            }),
    {
        let i: usize = match self.find(id) {
            Some(i) => i,
            None => {
                return None;
            },
        };
        if self.cells[i].canceled || self.cells[i].completed {
            return None;
        }
        self.cells[i].queued = false;
        let future = self.cells[i].future.take();
        proof {
            assert(self@.cells =~= old(self)@.begun(id).cells);
        }
        future
    }

    /// Ends running a task of a round: a task that is not done keeps what it runs, unless it
    /// has been canceled meanwhile. What is not kept is handed back, to be dropped.
    pub fn finish(&mut self, id: usize, future: F, ready: bool) -> (dropped: Option<F>)
        requires
            old(self).wf(),
        ensures
            final(self).wf(),
            final(self)@ == old(self)@.finished(id, future, ready),
            dropped == (if old(self)@.has(id) && !ready && !old(self)@.cell(id).canceled {
                None
            } else {
                Some(future)
            }),
    {
        let i: usize = match self.find(id) {
            Some(i) => i,
            None => {
                return Some(future);
            },
        };
        if ready {
            self.cells[i].completed = true;
            proof {
                assert(self@.cells =~= old(self)@.finished(id, future, ready).cells);
            }
            return Some(future);
        }
        if self.cells[i].canceled {
            return Some(future);
        }
        self.cells[i].future = Some(future);
        proof {
            assert(self@.cells =~= old(self)@.finished(id, future, ready).cells);
        }
        None
    }

    /// Cancels a task, which then never runs again. What it would have run is handed back, to
    /// be dropped.
    pub fn cancel(&mut self, id: usize) -> (dropped: Option<F>)
        requires
            old(self).wf(),
        ensures
            final(self).wf(),
            final(self)@ == old(self)@.canceled(id),
            dropped == (if old(self)@.live(id) {
                old(self)@.cell(id).future
            } else {
                None
            }),
    {
        let i: usize = match self.find(id) {
            Some(i) => i,
            None => {
                return None;
            },
        };
        let was_canceled: bool = self.cells[i].canceled;
        self.cells[i].canceled = true;
        if was_canceled || self.cells[i].completed {
            proof {
                assert(self@.cells =~= old(self)@.canceled(id).cells);
            }
            return None;
        }
        let dropped = self.cells[i].future.take();
        proof {
            assert(self@.cells =~= old(self)@.canceled(id).cells);
        }
        dropped
    }

    /// Forgets a task that nothing outside refers to any more, unless it waits for its turn.
    /// What it would have run is handed back, to be dropped.
    pub fn release(&mut self, id: usize) -> (dropped: Option<F>)
        requires
            old(self).wf(),
        ensures
            final(self).wf(),
            if old(self)@.releasable(id) {
                &&& dropped == old(self)@.cell(id).future
                &&& final(self)@ == old(self)@.without_cell(id)
            } else {
                &&& dropped is None
                &&& final(self)@ == old(self)@
            },
    {
        let i: usize = match self.find(id) {
            Some(i) => i,
            None => {
                return None;
            },
        };
        if self.cells[i].queued && !self.cells[i].canceled && !self.cells[i].completed {
            return None;
        }
        let cell = self.cells.remove(i);
        cell.future
    }
}

impl<T, F> Executor<T, F> where T: EventLoopWaker {
    /// An executor without tasks.
    pub fn new(waker: T) -> (executor: Self)
        ensures
            executor.wf(),
            executor@ == (ExecutorView::<T, F> {
                cells: Seq::empty(),
                next_id: 0,
                tasks: Seq::empty(),
                waker,
            }),
    {
        Executor { cells: Vec::new(), next_id: 0, tasks: Vec::new(), waker }
    }

    /// Puts a task into the queue, exactly once until it gets polled again, and wakes the event
    /// loop.
    pub fn schedule(&mut self, id: usize)
        requires
            old(self).wf(),
        ensures
            final(self).wf(),
            old(self)@.schedules(id, final(self)@),
    {
        let i: usize = match self.find(id) {
            Some(i) => i,
            None => {
                return ;
            },
        };
        if self.cells[i].queued || self.cells[i].canceled || self.cells[i].completed {
            return ;
        }
        self.cells[i].queued = true;
        self.tasks.push(id);
        self.waker.wake();
        proof {
            let before = old(self)@;
            assert(self@.cells =~= before.cells.update(
                i as int,
                TaskCell { queued: true, ..before.cells[i as int] },
            ));
            assert(!before.tasks.contains(id));
            assert(self@.tasks =~= before.tasks.push(id));
            assert forall|j: int|
                0 <= j < self@.cells.len() && self@.tasks.contains(
                    (#[trigger] self@.cells[j]).id,
                ) implies self@.cells[j].queued by {
                if j != i {
                    let at = self@.tasks.index_of(self@.cells[j].id);
                    assert(before.cells[j] == self@.cells[j]);
                    assert(at < before.tasks.len());
                    assert(before.tasks[at] == self@.cells[j].id);
                }
            }
        }
    }

    /// Hands a task over without a handle, so that it goes to the end of the queue and nothing
    /// cancels it. Running it, together with all others, is up to the caller, who takes one round
    /// after another until there is none left.
    pub fn block_on(&mut self, future: F)
        requires
            old(self).wf(),
            old(self)@.next_id < usize::MAX,
        ensures
            final(self).wf(),
            old(self)@.blocks_on(future, final(self)@),
    {
        let task = self.spawn(future);
        let ghost spawned = self@;
        proof {
            lemma_position(spawned, old(self)@.cells.len() as int);
        }
        task.detach(self);
        proof {
            assert(self@.cells =~= old(self)@.with_task(future, true, true).cells);
        }
    }
}

/// The handle of a task.
pub struct ExcutorTask {
    task: Option<usize>,
}

impl View for ExcutorTask {
    type V = Option<usize>;

    closed spec fn view(&self) -> Option<usize> {
        self.task
    }
}

impl<T, F> Spawner<F> for Executor<T, F> where T: EventLoopWaker {
    type Task = ExcutorTask;

    open spec fn can_spawn(&self) -> bool {
        self.wf() && self@.next_id < usize::MAX
    }

    open spec fn spawns(&self, task: F, after: &Self, handle: ExcutorTask) -> bool {
        &&& after.wf()
        &&& handle@ == Some(self@.next_id)
        &&& self@.waker.wakes(&after@.waker)
        &&& after@ == (ExecutorView { waker: after@.waker, ..self@.with_task(task, true, false) })
    }

    fn spawn(&mut self, task: F) -> (handle: ExcutorTask) {
        let id: usize = self.next_id;
        self.next_id = self.next_id + 1;
        // A task starts out of the queue, so that scheduling it is what puts it there.
        self.cells.push(
            TaskCell {
                id,
                future: Some(task),
                queued: false,
                detached: false,
                canceled: false,
                completed: false,
            },
        );
        proof {
            assert(self@ =~= old(self)@.with_task(task, false, false));
            assert(self@.wf());
            lemma_position(self@, old(self)@.cells.len() as int);
        }
        self.schedule(id);
        proof {
            assert(self@.cells =~= old(self)@.with_task(task, true, false).cells);
        }
        ExcutorTask { task: Some(id) }
    }
}

impl<T, F> SpawnTask<Executor<T, F>> for ExcutorTask {
    open spec fn can_detach(&self, spawner: &Executor<T, F>) -> bool {
        spawner.wf()
    }

    open spec fn detaches(&self, spawner: &Executor<T, F>, after: &Executor<T, F>) -> bool {
        &&& after.wf()
        &&& after@ == spawner@.handle_detached(self@)
    }

    fn detach(self, spawner: &mut Executor<T, F>) {
        if let Some(id) = self.task {
            if let Some(i) = spawner.find(id) {
                spawner.cells[i].detached = true;
                proof {
                    assert(spawner@.cells =~= old(spawner)@.with_cell(
                        id,
                        TaskCell { detached: true, ..old(spawner)@.cell(id) },
                    ).cells);
                }
            }
        }
    }
}

impl ExcutorTask {
    /// The number of the task, if the handle still belongs to one.
    pub fn id(&self) -> (id: Option<usize>)
        ensures
            id == self@,
    {
        self.task
    }

    /// Gives the handle back, which cancels the task unless it has been detached. What the task
    /// would have run is handed back, to be dropped.
    pub fn drop<T, F>(self, executor: &mut Executor<T, F>) -> (dropped: Option<F>)
        requires
            old(executor).wf(),
        ensures
            final(executor).wf(),
            final(executor)@ == old(executor)@.handle_dropped(self@),
            dropped == (match self@ {
                Some(id) if old(executor)@.live(id) && !old(executor)@.cell(id).detached => old(
                    executor,
                )@.cell(id).future,
                _ => None,
            }),
    {
        if let Some(id) = self.task {
            if let Some(i) = executor.find(id) {
                if !executor.cells[i].detached {
                    return executor.cancel(id);
                }
            }
        }
        None
    }
}

impl<T, F> DriverableSpawner<F> for Executor<T, F> where T: EventLoopWaker {
    type Round = Vec<usize>;

    open spec fn can_tick(&self) -> bool {
        self.wf()
    }

    open spec fn ticks(&self, after: &Self, round: Option<Vec<usize>>) -> bool {
        &&& after.wf()
        &&& match round {
            Some(round) => {
                &&& self@.tasks.len() > 0
                &&& round@ == self@.tasks
                &&& after@ == (ExecutorView { tasks: Seq::empty(), ..self@ })
            },
            None => self@.tasks.len() == 0 && after@ == self@,
        }
    }

    fn tick(&mut self) -> (round: Option<Vec<usize>>) {
        if self.has_tasks() {
            proof {
                let tasks = self@.tasks;
                assert(tasks.len() <= usize::MAX) by {
                    assert(self.tasks.len() == tasks.len());
                }
                assert(tasks.take(tasks.len() as int) =~= tasks);
                assert(tasks.skip(tasks.len() as int) =~= Seq::empty());
            }
            Some(self.process_tasks(usize::MAX))
        } else {
            None
        }
    }
}

/// Tasks run in the order in which they are scheduled: scheduling leaves everything that is
/// queued in its place.
pub proof fn law_scheduled_last<T: EventLoopWaker, F>(
    executor: ExecutorView<T, F>,
    id: usize,
    after: ExecutorView<T, F>,
)
    requires
        executor.schedules(id, after),
    ensures
        after.tasks.take(executor.tasks.len() as int) == executor.tasks,
        executor.schedulable(id) ==> after.tasks.last() == id && after.tasks.len()
            == executor.tasks.len() + 1,
{
    assert(after.tasks.take(executor.tasks.len() as int) =~= executor.tasks);
}

/// Rounds take the queue apart in its order: two rounds take what one round of both sizes
/// together takes, and nothing is lost.
pub proof fn law_rounds<T, F>(executor: ExecutorView<T, F>, first: int, second: int)
    requires
        0 <= first,
        0 <= second,
        first + second <= executor.tasks.len(),
    ensures
        executor.tasks.take(first) + executor.tasks.skip(first).take(second)
            == executor.tasks.take(first + second),
        executor.tasks.take(first) + executor.tasks.skip(first) == executor.tasks,
{
    assert(executor.tasks.take(first) + executor.tasks.skip(first).take(second)
        =~= executor.tasks.take(first + second));
    assert(executor.tasks.take(first) + executor.tasks.skip(first) =~= executor.tasks);
}

/// Every task of a round can be begun.
pub proof fn law_round_awaits_turn<T, F>(executor: ExecutorView<T, F>, count: usize, i: int)
    requires
        executor.wf(),
        0 <= i < executor.round(count),
    ensures
        executor.after_round(count).awaits_turn(executor.tasks[i]),
{
    let rest = executor.tasks.skip(executor.round(count));
    let id = executor.tasks[i];
    assert(executor.tasks.contains(id));
    if rest.contains(id) {
        let j = choose|j: int| 0 <= j < rest.len() && rest[j] == id;
        assert(executor.tasks[j + executor.round(count)] == id);
    }
    let after = executor.after_round(count);
    if after.has(id) {
        assert(after.position(id) == executor.position(id));
    }
}

/// The tasks of a round keep their turn whatever happens before it comes: whichever tasks are
/// scheduled, begun, finished, canceled, forgotten or handed over meanwhile, and whichever further
/// rounds are taken out.
pub proof fn law_turn_is_kept<T: EventLoopWaker, F>(
    executor: ExecutorView<T, F>,
    id: usize,
    other: usize,
    future: F,
    ready: bool,
    count: usize,
    scheduled: ExecutorView<T, F>,
)
    requires
        executor.wf(),
        executor.awaits_turn(id),
        executor.next_id < usize::MAX,
        executor.schedules(other, scheduled),
    ensures
        scheduled.awaits_turn(id),
        other != id ==> executor.begun(other).awaits_turn(id),
        executor.finished(other, future, ready).awaits_turn(id),
        executor.canceled(other).awaits_turn(id),
        executor.handle_detached(Some(other)).awaits_turn(id),
        executor.handle_dropped(Some(other)).awaits_turn(id),
        executor.releasable(other) ==> executor.without_cell(other).awaits_turn(id),
        executor.after_round(count).awaits_turn(id),
        executor.with_task(future, true, ready).awaits_turn(id),
{
    if executor.releasable(other) {
        let at = executor.position(other);
        let after = executor.without_cell(other);
        if after.has(id) {
            let i = after.position(id);
            let j = if i < at {
                i
            } else {
                i + 1
            };
            assert(after.cells[i] == executor.cells[j]);
            lemma_position(executor, j);
        }
    }
    let later = executor.after_round(count);
    assert(!later.tasks.contains(id)) by {
        if later.tasks.contains(id) {
            let j = later.tasks.index_of(id);
            assert(executor.tasks[j + executor.round(count)] == id);
        }
    }
    if later.has(id) {
        assert(later.position(id) == executor.position(id));
    }
    lemma_turn_of_cells(executor, id, other, executor.begun(other));
    lemma_turn_of_cells(executor, id, other, executor.finished(other, future, ready));
    lemma_turn_of_cells(executor, id, other, executor.canceled(other));
    lemma_turn_of_cells(executor, id, other, executor.handle_detached(Some(other)));
    if executor.schedulable(other) {
        let same = ExecutorView { tasks: executor.tasks, ..scheduled };
        lemma_turn_of_cells(executor, id, other, same);
        assert(!scheduled.tasks.contains(id)) by {
            if scheduled.tasks.contains(id) {
                let j = scheduled.tasks.index_of(id);
                assert(j < executor.tasks.len() ==> executor.tasks[j] == id);
            }
        }
        if scheduled.has(id) {
            assert(same.has(id));
            assert(scheduled.position(id) == same.position(id));
        }
    }
    let spawned = executor.with_task(future, true, ready);
    assert(!spawned.tasks.contains(id)) by {
        if spawned.tasks.contains(id) {
            let j = spawned.tasks.index_of(id);
            assert(j < executor.tasks.len() ==> executor.tasks[j] == id);
        }
    }
    if spawned.has(id) {
        let at = spawned.position(id);
        assert(at < executor.cells.len());
        assert(executor.cells[at].id == id);
        assert(executor.has(id));
    }
}

/// Changing the state of one task leaves every other task's turn, and its own if it is still
/// marked as queued.
proof fn lemma_turn_of_cells<T, F>(
    executor: ExecutorView<T, F>,
    id: usize,
    other: usize,
    after: ExecutorView<T, F>,
)
    requires
        executor.wf(),
        executor.awaits_turn(id),
        after.tasks == executor.tasks,
        after.next_id == executor.next_id,
        after.cells.len() == executor.cells.len(),
        forall|i: int|
            0 <= i < after.cells.len() ==> (#[trigger] after.cells[i]).id == executor.cells[i].id,
        forall|i: int|
            0 <= i < after.cells.len() && executor.cells[i].id != other ==> (
            #[trigger] after.cells[i]) == executor.cells[i],
    ensures
        other != id ==> after.awaits_turn(id),
        executor.has(id) && after.cells[executor.position(id)].queued ==> after.awaits_turn(id),
        !executor.has(id) ==> after.awaits_turn(id),
{
    if executor.has(id) {
        lemma_with_cell(executor, id, after);
    } else if after.has(id) {
        let at = after.position(id);
        assert(executor.cells[at].id == id);
    }
}

/// A task is queued once until it is polled: scheduling it again changes nothing.
pub proof fn law_scheduled_once<T: EventLoopWaker, F>(
    executor: ExecutorView<T, F>,
    id: usize,
    once: ExecutorView<T, F>,
    twice: ExecutorView<T, F>,
)
    requires
        executor.wf(),
        executor.schedules(id, once),
        once.schedules(id, twice),
    ensures
        twice == once,
{
    if executor.schedulable(id) {
        let i = executor.position(id);
        assert(once.cells[i].id == id);
        assert forall|j: int| 0 <= j < once.cells.len() && (#[trigger] once.cells[j]).id
            == id implies j == i by {
            assert(executor.cells[j].id == id);
        }
        assert(once.has(id));
        assert(once.cell(id).queued);
    }
}

/// A canceled task never runs again: it is not scheduled, and when its turn comes it is passed
/// over.
pub proof fn law_canceled_never_runs<T: EventLoopWaker, F>(
    executor: ExecutorView<T, F>,
    id: usize,
    after: ExecutorView<T, F>,
)
    requires
        executor.wf(),
        executor.has(id),
        executor.canceled(id).schedules(id, after),
    ensures
        after == executor.canceled(id),
        !executor.canceled(id).live(id),
        executor.canceled(id).begun(id) == executor.canceled(id),
        executor.live(id) ==> executor.canceled(id).cell(id).future is None,
{
    lemma_with_cell(executor, id, executor.canceled(id));
}

/// A completed task never runs again.
pub proof fn law_completed_never_runs<T: EventLoopWaker, F>(
    executor: ExecutorView<T, F>,
    id: usize,
    future: F,
    after: ExecutorView<T, F>,
)
    requires
        executor.wf(),
        executor.has(id),
        executor.finished(id, future, true).schedules(id, after),
    ensures
        after == executor.finished(id, future, true),
        !after.live(id),
        after.begun(id) == after,
{
    lemma_with_cell(executor, id, executor.finished(id, future, true));
}

/// A round is there exactly when something is queued, and then it is the whole queue.
pub proof fn law_tick_takes_all<T: EventLoopWaker, F>(
    executor: Executor<T, F>,
    after: Executor<T, F>,
    round: Option<Vec<usize>>,
)
    requires
        executor.ticks(&after, round),
    ensures
        round is None <==> executor@.tasks.len() == 0,
        round is None ==> after@ == executor@,
        round matches Some(taken) ==> taken@ == executor@.tasks && after@.tasks.len() == 0,
{
}

/// What comes of a task that is to be run to the end: the first round is everything that was
/// queued before it, followed by the task itself. When its turn comes, it is handed out to be
/// polled. If it was not done then, it is kept and can be scheduled again, and nothing is left of
/// it in the queue until it is; if it was done, it never runs again.
pub proof fn law_block_on<T: EventLoopWaker, F>(
    executor: Executor<T, F>,
    future: F,
    blocked: Executor<T, F>,
    round: Option<Vec<usize>>,
    ticked: Executor<T, F>,
    polled: F,
)
    requires
        executor.wf(),
        executor@.next_id < usize::MAX,
        executor@.blocks_on(future, blocked@),
        blocked.ticks(&ticked, round),
    ensures
        ({
            let id = executor@.next_id;
            let begun = ticked@.begun(id);
            let pending = begun.finished(id, polled, false);
            let done = begun.finished(id, polled, true);
            &&& round matches Some(taken) && taken@ == executor@.tasks.push(id)
            &&& ticked@.tasks.len() == 0
            &&& ticked@.awaits_turn(id)
            &&& ticked@.live(id)
            &&& ticked@.cell(id).future == Some(future)
            &&& ticked@.handle_dropped(Some(id)) == ticked@
            &&& pending.schedulable(id)
            &&& pending.cell(id).future == Some(polled)
            &&& !pending.tasks.contains(id)
            &&& !done.live(id)
            &&& !done.schedulable(id)
        }),
{
    let id = executor@.next_id;
    let at = executor@.cells.len() as int;
    assert(ticked@.cells[at].id == id);
    assert(ticked@.has(id));
    assert(ticked@.position(id) == at);
    let begun = ticked@.begun(id);
    lemma_with_cell(ticked@, id, begun);
    lemma_with_cell(begun, id, begun.finished(id, polled, false));
    lemma_with_cell(begun, id, begun.finished(id, polled, true));
}

/// A task can be scheduled again as soon as it has begun to run, and one that is not done
/// afterwards keeps what it runs.
pub proof fn law_runs_again<T, F>(executor: ExecutorView<T, F>, id: usize, future: F)
    requires
        executor.wf(),
        executor.live(id),
        executor.cell(id).future == Some(future),
    ensures
        executor.begun(id).schedulable(id),
        executor.begun(id).finished(id, future, false) == executor.with_cell(
            id,
            TaskCell { queued: false, ..executor.cell(id) },
        ),
{
    lemma_with_cell(executor, id, executor.begun(id));
    assert(executor.begun(id).finished(id, future, false).cells =~= executor.with_cell(
        id,
        TaskCell { queued: false, ..executor.cell(id) },
    ).cells);
}

/// A detached task keeps running even if its handle is given back: nothing changes for it.
pub proof fn law_detached_keeps_running<T, F>(executor: ExecutorView<T, F>, id: usize)
    requires
        executor.wf(),
        executor.has(id),
    ensures
        executor.handle_detached(Some(id)).handle_dropped(Some(id)) == executor.handle_detached(
            Some(id),
        ),
        executor.handle_detached(Some(id)).live(id) == executor.live(id),
        executor.handle_detached(Some(id)).cell(id).future == executor.cell(id).future,
        executor.handle_detached(Some(id)).tasks == executor.tasks,
{
    lemma_with_cell(executor, id, executor.handle_detached(Some(id)));
}

/// A task whose handle is given back, and which is not detached, never runs again.
pub proof fn law_dropped_handle_cancels<T, F>(executor: ExecutorView<T, F>, id: usize)
    requires
        executor.wf(),
        executor.has(id),
        !executor.cell(id).detached,
    ensures
        !executor.handle_dropped(Some(id)).live(id),
        !executor.handle_dropped(Some(id)).schedulable(id),
{
    lemma_with_cell(executor, id, executor.handle_dropped(Some(id)));
}

/// A task that is canceled while it runs does not keep what it runs.
pub proof fn law_canceled_while_running<T, F>(executor: ExecutorView<T, F>, id: usize, future: F)
    requires
        executor.wf(),
        executor.live(id),
    ensures
        executor.begun(id).canceled(id).finished(id, future, false) == executor.begun(id).canceled(
            id,
        ),
        executor.begun(id).canceled(id).cell(id).future is None,
{
    lemma_with_cell(executor, id, executor.begun(id));
    lemma_with_cell(executor.begun(id), id, executor.begun(id).canceled(id));
}

/// Changing the state of one task leaves it where it is.
proof fn lemma_with_cell<T, F>(
    executor: ExecutorView<T, F>,
    id: usize,
    after: ExecutorView<T, F>,
)
    requires
        executor.has(id),
        forall|i: int, j: int|
            0 <= i < j < executor.cells.len() ==> #[trigger] executor.cells[i].id
                < #[trigger] executor.cells[j].id,
        after.cells.len() == executor.cells.len(),
        forall|i: int|
            0 <= i < after.cells.len() ==> (#[trigger] after.cells[i]).id == executor.cells[i].id,
    ensures
        after.has(id),
        after.position(id) == executor.position(id),
        forall|i: int, j: int|
            0 <= i < j < after.cells.len() ==> #[trigger] after.cells[i].id
                < #[trigger] after.cells[j].id,
{
    let at = executor.position(id);
    assert(after.cells[at].id == id);
    assert forall|i: int, j: int| 0 <= i < j < after.cells.len() implies
        #[trigger] after.cells[i].id < #[trigger] after.cells[j].id by {
        assert(executor.cells[i].id < executor.cells[j].id);
    }
}

} // verus!
