//! What each operation on a lock does.
use core::task::Waker;

use vstd::prelude::*;

use super::mutex::MutexView;
use super::rwlock::RwLockView;
use crate::event::exact;
use crate::wait;
use crate::wait::Waiter;

verus! {

/// What polling for the lock of a mutex does. A task that waits and has not been notified goes on
/// waiting. Any other stops waiting; it gets the lock if nobody holds it, and then one more task is
/// notified; otherwise it waits anew.
pub proof fn law_mutex_poll_exact<T>(mutex: MutexView<T>, waiter: Waiter, waker: Waker)
    ensures
        ({
            let ready = wait::ready(waiter, mutex.event);
            let rest = wait::released(waiter, mutex.event);
            let after = mutex.polled(waiter, waker);
            &&& mutex.grants(waiter) <==> ready && !mutex.locked
            &&& mutex.pollable(waiter) <==> wait::attached(waiter, mutex.event) && (ready
                && mutex.locked ==> mutex.event.next_id < usize::MAX)
            &&& after.value == mutex.value
            &&& after.locked <==> mutex.locked || ready
            &&& after.event == (if !ready {
                wait::parked(waiter, mutex.event, waker)
            } else if mutex.locked {
                rest.with_listener(Some(waker))
            } else {
                rest.signaled(1)
            })
            &&& mutex.polled_waiter(waiter) == (if !ready {
                waiter
            } else if mutex.locked {
                Some(mutex.event.next_id)
            } else {
                None
            })
            &&& mutex.polled_wakers(waiter) == (if ready && !mutex.locked {
                rest.signaled_wakers(1)
            } else {
                Seq::empty()
            })
        }),
{
}

/// What the other operations on a mutex do: unlocking notifies one more task.
pub proof fn law_mutex_exact<T>(mutex: MutexView<T>, waiter: Waiter, value: T)
    ensures
        !mutex.unlocked().locked,
        mutex.unlocked().value == mutex.value,
        mutex.unlocked().event == mutex.event.signaled(1),
        mutex.acquired().locked,
        mutex.acquired().value == mutex.value,
        mutex.acquired().event == mutex.event.signaled(1),
        mutex.given_up(waiter).locked == mutex.locked,
        mutex.given_up(waiter).value == mutex.value,
        mutex.given_up(waiter).event == wait::abandoned(waiter, mutex.event),
        mutex.written(value).locked == mutex.locked,
        mutex.written(value).value == value,
        mutex.written(value).event == mutex.event,
{
}

/// A task that polls a mutex and is told to wait, whether for the first time or again, is left
/// waiting with the waker of this very poll; and when a guard is given back and the notification
/// reaches the task, that waker is woken.
pub proof fn law_mutex_wait_leaves_waker<T>(mutex: MutexView<T>, waiter: Waiter, waker: Waker)
    requires
        mutex.event.wf(),
        mutex.pollable(waiter),
        !mutex.grants(waiter),
    ensures
        ({
            let after = mutex.polled(waiter, waker);
            let waiting = mutex.polled_waiter(waiter);
            &&& wait::exact::waits_with(after.event, waiting, waker)
            &&& wait::ready(waiting, after.unlocked().event) ==> after.event.signaled_wakers(
                1,
            ).contains(waker)
        }),
{
    lemma_told_to_wait(mutex.event, waiter, waker);
    law_mutex_poll_exact(mutex, waiter, waker);
    let after = mutex.polled(waiter, waker);
    let waiting = mutex.polled_waiter(waiter);
    if wait::ready(waiting, after.event.signaled(1)) {
        wait::exact::law_waiting_is_woken(after.event, waiting, waker, 1);
    }
}

/// Going on waiting, and waiting anew, both leave the waker and all numbers different.
proof fn lemma_told_to_wait(
    event: crate::event::EventView<()>,
    waiter: Waiter,
    waker: Waker,
)
    requires
        event.wf(),
        wait::attached(waiter, event),
    ensures
        !wait::ready(waiter, event) ==> {
            &&& exact::distinct(wait::parked(waiter, event, waker))
            &&& wait::exact::waits_with(wait::parked(waiter, event, waker), waiter, waker)
        },
        exact::distinct(wait::released(waiter, event).with_listener(Some(waker))),
        wait::exact::waits_with(
            wait::released(waiter, event).with_listener(Some(waker)),
            Some(event.next_id),
            waker,
        ),
{
    wait::exact::law_attached_exact(waiter, event);
    if !wait::ready(waiter, event) {
        wait::exact::law_parked_waits(waiter, event, waker);
    }
    if let Some(id) = waiter {
        let i = choose|i: int|
            0 <= i < event.listeners.len() && (#[trigger] event.listeners[i]).id == id;
        exact::law_listener_exact(event, i, waker);
        let parked = wait::parked(waiter, event, waker);
        assert forall|j: int, k: int| 0 <= j < k < parked.listeners.len() implies (
        #[trigger] parked.listeners[j]).id != (#[trigger] parked.listeners[k]).id by {
            assert(event.listeners[j].id != event.listeners[k].id);
        }
    }
    let rest = wait::released(waiter, event);
    wait::exact::law_listener_waits(rest, waker);
    let anew = rest.with_listener(Some(waker));
    assert forall|j: int, k: int| 0 <= j < k < anew.listeners.len() implies (
    #[trigger] anew.listeners[j]).id != (#[trigger] anew.listeners[k]).id by {
        assert(rest.listeners[j].id < event.next_id);
    }
}

/// What polling a read-write lock for reading does. A task that waits and has not been notified
/// goes on waiting. Any other stops waiting; it is let in if no exclusive guard is out, and then
/// one more task is notified; otherwise it waits anew.
pub proof fn law_read_poll_exact<T>(lock: RwLockView<T>, waiter: Waiter, waker: Waker)
    ensures
        ({
            let ready = wait::ready(waiter, lock.event);
            let rest = wait::released(waiter, lock.event);
            let after = lock.polled_read(waiter, waker);
            &&& lock.grants_read(waiter) <==> ready && !lock.locked
            &&& lock.pollable_read(waiter) <==> wait::attached(waiter, lock.event) && (ready
                && lock.locked ==> lock.event.next_id < usize::MAX) && (ready && !lock.locked
                ==> lock.readers < usize::MAX)
            &&& after.value == lock.value
            &&& after.locked == lock.locked
            &&& ready && !lock.locked && lock.readers < usize::MAX ==> after.readers == lock.readers
                + 1
            &&& !(ready && !lock.locked) ==> after.readers == lock.readers
            &&& after.event == (if !ready {
                wait::parked(waiter, lock.event, waker)
            } else if lock.locked {
                rest.with_listener(Some(waker))
            } else {
                rest.signaled(1)
            })
            &&& lock.polled_waiter_read(waiter) == (if !ready {
                waiter
            } else if lock.locked {
                Some(lock.event.next_id)
            } else {
                None
            })
            &&& lock.polled_wakers_read(waiter) == (if ready && !lock.locked {
                rest.signaled_wakers(1)
            } else {
                Seq::empty()
            })
        }),
{
}

/// What polling a read-write lock for getting at the value alone does. A task that waits and has
/// not been notified goes on waiting. Any other stops waiting; it is let in if no guard at all is
/// out, and then one more task is notified; otherwise it waits anew.
pub proof fn law_write_poll_exact<T>(lock: RwLockView<T>, waiter: Waiter, waker: Waker)
    ensures
        ({
            let ready = wait::ready(waiter, lock.event);
            let rest = wait::released(waiter, lock.event);
            let free = !lock.locked && lock.readers == 0;
            let after = lock.polled_write(waiter, waker);
            &&& lock.grants_write(waiter) <==> ready && free
            &&& lock.pollable_write(waiter) <==> wait::attached(waiter, lock.event) && (ready
                && !free ==> lock.event.next_id < usize::MAX)
            &&& after.value == lock.value
            &&& after.readers == lock.readers
            &&& after.locked <==> lock.locked || (ready && free)
            &&& after.event == (if !ready {
                wait::parked(waiter, lock.event, waker)
            } else if !free {
                rest.with_listener(Some(waker))
            } else {
                rest.signaled(1)
            })
            &&& lock.polled_waiter_write(waiter) == (if !ready {
                waiter
            } else if !free {
                Some(lock.event.next_id)
            } else {
                None
            })
            &&& lock.polled_wakers_write(waiter) == (if ready && free {
                rest.signaled_wakers(1)
            } else {
                Seq::empty()
            })
        }),
{
}

/// What the other operations on a read-write lock do: whoever goes notifies one more task.
pub proof fn law_rwlock_exact<T>(lock: RwLockView<T>, waiter: Waiter, value: T)
    ensures
        lock.can_read() <==> !lock.locked,
        lock.can_write() <==> !lock.locked && lock.readers == 0,
        ({
            let after = lock.without_reader();
            &&& lock.readers > 0 ==> after.readers == lock.readers - 1
            &&& after.locked == lock.locked
            &&& after.value == lock.value
            &&& after.event == lock.event.signaled(1)
        }),
        ({
            let after = lock.unlocked();
            &&& after.readers == lock.readers
            &&& !after.locked
            &&& after.value == lock.value
            &&& after.event == lock.event.signaled(1)
        }),
        ({
            let after = lock.given_up(waiter);
            &&& after.readers == lock.readers
            &&& after.locked == lock.locked
            &&& after.value == lock.value
            &&& after.event == wait::abandoned(waiter, lock.event)
        }),
        ({
            let after = lock.written(value);
            &&& after.readers == lock.readers
            &&& after.locked == lock.locked
            &&& after.value == value
            &&& after.event == lock.event
        }),
{
}

/// A task that polls a read-write lock for reading and is told to wait, whether for the first time
/// or again, is left waiting with the waker of this very poll; and when a guard is given back and
/// the notification reaches the task, that waker is woken.
pub proof fn law_read_wait_leaves_waker<T>(lock: RwLockView<T>, waiter: Waiter, waker: Waker)
    requires
        lock.event.wf(),
        lock.pollable_read(waiter),
        !lock.grants_read(waiter),
    ensures
        ({
            let after = lock.polled_read(waiter, waker);
            let waiting = lock.polled_waiter_read(waiter);
            &&& wait::exact::waits_with(after.event, waiting, waker)
            &&& wait::ready(waiting, after.unlocked().event) ==> after.event.signaled_wakers(
                1,
            ).contains(waker)
        }),
{
    lemma_told_to_wait(lock.event, waiter, waker);
    law_read_poll_exact(lock, waiter, waker);
    let after = lock.polled_read(waiter, waker);
    let waiting = lock.polled_waiter_read(waiter);
    if wait::ready(waiting, after.event.signaled(1)) {
        wait::exact::law_waiting_is_woken(after.event, waiting, waker, 1);
    }
}

/// A task that polls a read-write lock for getting at the value alone and is told to wait, whether
/// for the first time or again, is left waiting with the waker of this very poll; and when a guard,
/// be it the last reader's or an exclusive one, is given back and the notification reaches the
/// task, that waker is woken.
pub proof fn law_write_wait_leaves_waker<T>(lock: RwLockView<T>, waiter: Waiter, waker: Waker)
    requires
        lock.event.wf(),
        lock.pollable_write(waiter),
        !lock.grants_write(waiter),
    ensures
        ({
            let after = lock.polled_write(waiter, waker);
            let waiting = lock.polled_waiter_write(waiter);
            &&& wait::exact::waits_with(after.event, waiting, waker)
            &&& wait::ready(waiting, after.without_reader().event)
                ==> after.event.signaled_wakers(1).contains(waker)
            &&& wait::ready(waiting, after.unlocked().event) ==> after.event.signaled_wakers(
                1,
            ).contains(waker)
        }),
{
    lemma_told_to_wait(lock.event, waiter, waker);
    law_write_poll_exact(lock, waiter, waker);
    let after = lock.polled_write(waiter, waker);
    let waiting = lock.polled_waiter_write(waiter);
    if wait::ready(waiting, after.event.signaled(1)) {
        wait::exact::law_waiting_is_woken(after.event, waiting, waker, 1);
    }
}

} // verus!
