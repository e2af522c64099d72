//! What each operation of an executor does, task by task.
use vstd::prelude::*;

use super::{EventLoopWaker, ExcutorTask, Executor, ExecutorView, TaskCell};
use crate::spawner::{DriverableSpawner, SpawnTask, Spawner};

verus! {

/// Whether no two tasks have the same number.
pub open spec fn distinct<T, F>(executor: ExecutorView<T, F>) -> bool {
    forall|i: int, j: int|
        0 <= i < j < executor.cells.len() ==> (#[trigger] executor.cells[i]).id != (
        #[trigger] executor.cells[j]).id
}

proof fn lemma_found<T, F>(executor: ExecutorView<T, F>, i: int)
    requires
        distinct(executor),
        0 <= i < executor.cells.len(),
    ensures
        executor.has(executor.cells[i].id),
        executor.position(executor.cells[i].id) == i,
{
}

/// What the number of a task stands for.
pub proof fn law_task_exact<T, F>(executor: ExecutorView<T, F>, i: int)
    requires
        distinct(executor),
        0 <= i < executor.cells.len(),
    ensures
        ({
            let task = executor.cells[i];
            &&& executor.has(task.id)
            &&& executor.cell(task.id) == task
            &&& executor.live(task.id) <==> !task.canceled && !task.completed
            &&& executor.schedulable(task.id) <==> !task.queued && !task.canceled
                && !task.completed
            &&& executor.releasable(task.id) <==> !task.queued || task.canceled || task.completed
            &&& executor.awaits_turn(task.id) <==> task.id < executor.next_id
                && !executor.tasks.contains(task.id) && task.queued
        }),
{
    lemma_found(executor, i);
}

/// A number that no task has stands for nothing, and nothing comes of it.
pub proof fn law_unknown_task<T: EventLoopWaker, F>(
    executor: ExecutorView<T, F>,
    id: usize,
    future: F,
    ready: bool,
    after: ExecutorView<T, F>,
)
    requires
        forall|i: int| 0 <= i < executor.cells.len() ==> (#[trigger] executor.cells[i]).id != id,
    ensures
        !executor.has(id),
        !executor.live(id),
        !executor.releasable(id),
        executor.schedules(id, after) <==> after == executor,
        executor.begun(id) == executor,
        executor.finished(id, future, ready) == executor,
        executor.canceled(id) == executor,
        executor.handle_detached(Some(id)) == executor,
        executor.handle_dropped(Some(id)) == executor,
        executor.handle_detached(None) == executor,
        executor.handle_dropped(None) == executor,
{
}

/// What scheduling does: a task that is neither queued nor canceled nor completed is appended to
/// the queue and marked as queued, whatever else is queued and whether or not it is being polled,
/// and the event loop is woken. With any other nothing happens.
pub proof fn law_schedule_exact<T: EventLoopWaker, F>(
    executor: ExecutorView<T, F>,
    i: int,
    after: ExecutorView<T, F>,
)
    requires
        distinct(executor),
        0 <= i < executor.cells.len(),
        executor.schedules(executor.cells[i].id, after),
    ensures
        ({
            let task = executor.cells[i];
            if !task.queued && !task.canceled && !task.completed {
                &&& after.tasks == executor.tasks.push(task.id)
                &&& after.cells == executor.cells.update(i, TaskCell { queued: true, ..task })
                &&& after.next_id == executor.next_id
                &&& executor.waker.wakes(&after.waker)
            } else {
                after == executor
            }
        }),
{
    lemma_found(executor, i);
}

/// A wake-up of a task that may still run is never lost: after it the task is in the queue, or it
/// was marked as queued already.
pub proof fn law_wakeup_is_kept<T: EventLoopWaker, F>(
    executor: ExecutorView<T, F>,
    i: int,
    after: ExecutorView<T, F>,
)
    requires
        distinct(executor),
        0 <= i < executor.cells.len(),
        !executor.cells[i].canceled,
        !executor.cells[i].completed,
        executor.schedules(executor.cells[i].id, after),
    ensures
        executor.cells[i].queued || after.tasks.contains(executor.cells[i].id),
        forall|id: usize| executor.tasks.contains(id) ==> #[trigger] after.tasks.contains(id),
{
    law_schedule_exact(executor, i, after);
    let id = executor.cells[i].id;
    if !executor.cells[i].queued {
        assert(after.tasks[executor.tasks.len() as int] == id);
        assert forall|id: usize| executor.tasks.contains(id) implies #[trigger]
        after.tasks.contains(id) by {
            let n = executor.tasks.index_of(id);
            assert(after.tasks[n] == id);
        }
    }
}

/// Tasks are queued in the order of their wake-ups: of two idle ones that may still run, the one
/// that is woken first comes first, and the next round hands out both, behind what was queued
/// before.
pub proof fn law_wakeups_in_order<T: EventLoopWaker, F>(
    executor: Executor<T, F>,
    i: int,
    j: int,
    first: Executor<T, F>,
    second: Executor<T, F>,
    round: Option<Vec<usize>>,
    after: Executor<T, F>,
)
    requires
        distinct(executor@),
        0 <= i < executor@.cells.len(),
        0 <= j < executor@.cells.len(),
        i != j,
        !executor@.cells[i].queued && !executor@.cells[i].canceled && !executor@.cells[i].completed,
        !executor@.cells[j].queued && !executor@.cells[j].canceled && !executor@.cells[j].completed,
        executor@.schedules(executor@.cells[i].id, first@),
        first@.schedules(executor@.cells[j].id, second@),
        second.ticks(&after, round),
    ensures
        round matches Some(taken) && taken@ == executor@.tasks.push(executor@.cells[i].id).push(
            executor@.cells[j].id,
        ),
{
    law_schedule_exact(executor@, i, first@);
    assert(first@.cells[j] == executor@.cells[j]);
    assert(distinct(first@)) by {
        assert forall|a: int, b: int| 0 <= a < b < first@.cells.len() implies (
        #[trigger] first@.cells[a]).id != (#[trigger] first@.cells[b]).id by {
            assert(executor@.cells[a].id != executor@.cells[b].id);
        }
    }
    law_schedule_exact(first@, j, second@);
    law_tick_exact(second, round, after);
}

/// What handing a task over does: it gets the next number, stands last among the tasks and last in
/// the queue, with a handle for it, and the event loop is woken. Nothing else changes.
pub proof fn law_spawn_exact<T: EventLoopWaker, F>(
    executor: Executor<T, F>,
    task: F,
    after: Executor<T, F>,
    handle: ExcutorTask,
)
    requires
        executor@.next_id < usize::MAX,
        executor.spawns(task, &after, handle),
    ensures
        handle@ == Some(executor@.next_id),
        after@.cells == executor@.cells.push(
            TaskCell {
                id: executor@.next_id,
                future: Some(task),
                queued: true,
                detached: false,
                canceled: false,
                completed: false,
            },
        ),
        after@.tasks == executor@.tasks.push(executor@.next_id),
        after@.next_id == executor@.next_id + 1,
        executor@.waker.wakes(&after@.waker),
{
}

/// What handing a task over without a handle does: the same, and the task is detached.
pub proof fn law_block_on_exact<T: EventLoopWaker, F>(
    executor: ExecutorView<T, F>,
    task: F,
    after: ExecutorView<T, F>,
)
    requires
        executor.next_id < usize::MAX,
        executor.blocks_on(task, after),
    ensures
        after.cells == executor.cells.push(
            TaskCell {
                id: executor.next_id,
                future: Some(task),
                queued: true,
                detached: true,
                canceled: false,
                completed: false,
            },
        ),
        after.tasks == executor.tasks.push(executor.next_id),
        after.next_id == executor.next_id + 1,
        executor.waker.wakes(&after.waker),
{
}

/// What taking a round of up to `count` tasks does: the first ones leave the queue.
pub proof fn law_round_exact<T, F>(executor: ExecutorView<T, F>, count: usize)
    ensures
        executor.round(count) == (if count as int <= executor.tasks.len() {
            count as int
        } else {
            executor.tasks.len() as int
        }),
        executor.after_round(count).tasks == executor.tasks.subrange(
            executor.round(count),
            executor.tasks.len() as int,
        ),
        executor.after_round(count) == (ExecutorView {
            tasks: executor.after_round(count).tasks,
            ..executor
        }),
{
    assert(executor.after_round(count).tasks =~= executor.tasks.subrange(
        executor.round(count),
        executor.tasks.len() as int,
    ));
}

/// What taking out a round of everything does: there is one exactly when something is queued, it is
/// the whole queue in its order, and nothing else changes.
pub proof fn law_tick_exact<T: EventLoopWaker, F>(
    executor: Executor<T, F>,
    round: Option<Vec<usize>>,
    after: Executor<T, F>,
)
    requires
        executor.ticks(&after, round),
    ensures
        round is Some <==> executor@.tasks.len() > 0,
        round matches Some(taken) ==> taken@ == executor@.tasks,
        after@.tasks.len() == 0,
        after@.cells == executor@.cells,
        after@.next_id == executor@.next_id,
        after@.waker == executor@.waker,
{
}

/// What beginning, finishing and canceling a task does to it. Beginning marks it as no longer
/// queued and takes out what it runs. A task that is done is completed. One that is not done and
/// has not been canceled keeps what it runs. Canceling takes away what it would have run. Nothing
/// else changes.
pub proof fn law_running_exact<T, F>(
    executor: ExecutorView<T, F>,
    i: int,
    future: F,
)
    requires
        distinct(executor),
        0 <= i < executor.cells.len(),
    ensures
        ({
            let task = executor.cells[i];
            let live = !task.canceled && !task.completed;
            &&& executor.begun(task.id) == (ExecutorView {
                cells: if live {
                    executor.cells.update(i, TaskCell { queued: false, future: None, ..task })
                } else {
                    executor.cells
                },
                ..executor
            })
            &&& executor.finished(task.id, future, true) == (ExecutorView {
                cells: executor.cells.update(i, TaskCell { completed: true, ..task }),
                ..executor
            })
            &&& executor.finished(task.id, future, false) == (ExecutorView {
                cells: if task.canceled {
                    executor.cells
                } else {
                    executor.cells.update(i, TaskCell { future: Some(future), ..task })
                },
                ..executor
            })
            &&& executor.canceled(task.id) == (ExecutorView {
                cells: executor.cells.update(
                    i,
                    TaskCell {
                        canceled: true,
                        future: if live {
                            None
                        } else {
                            task.future
                        },
                        ..task
                    },
                ),
                ..executor
            })
        }),
{
    lemma_found(executor, i);
    let task = executor.cells[i];
    assert(executor.canceled(task.id).cells =~= executor.cells.update(
        i,
        TaskCell {
            canceled: true,
            future: if !task.canceled && !task.completed {
                None
            } else {
                task.future
            },
            ..task
        },
    ));
}

/// What a handle does: letting it go marks its task as detached, and giving it back cancels the
/// task unless it is detached. Forgetting a task removes it and nothing else.
pub proof fn law_handle_exact<T, F>(executor: ExecutorView<T, F>, i: int)
    requires
        distinct(executor),
        0 <= i < executor.cells.len(),
    ensures
        ({
            let task = executor.cells[i];
            &&& executor.handle_detached(Some(task.id)) == (ExecutorView {
                cells: executor.cells.update(i, TaskCell { detached: true, ..task }),
                ..executor
            })
            &&& executor.handle_dropped(Some(task.id)) == (if task.detached {
                executor
            } else {
                executor.canceled(task.id)
            })
            &&& executor.without_cell(task.id) == (ExecutorView {
                cells: executor.cells.remove(i),
                ..executor
            })
        }),
{
    lemma_found(executor, i);
}

/// Letting a handle go does what is said of it above, to the executor that it belongs to.
pub proof fn law_detach_exact<T, F>(
    executor: Executor<T, F>,
    handle: ExcutorTask,
    after: Executor<T, F>,
)
    requires
        handle.detaches(&executor, &after),
    ensures
        after@ == executor@.handle_detached(handle@),
{
}

/// An executor that is in order takes one more task whenever there is a number for it, takes a
/// round at any time, and lets go of any handle.
pub proof fn law_executor_can<T: EventLoopWaker, F>(executor: Executor<T, F>, handle: ExcutorTask)
    ensures
        executor.can_spawn() <==> executor.wf() && executor@.next_id < usize::MAX,
        executor.can_tick() <==> executor.wf(),
        handle.can_detach(&executor) <==> executor.wf(),
{
}

} // verus!
