//! What holds of locks as a whole.
use core::task::Waker;

use vstd::prelude::*;

use super::mutex::MutexView;
use super::rwlock::RwLockView;
use crate::event::laws;
use crate::wait;
use crate::wait::Waiter;

verus! {

/// One guard at a time: whoever gets the lock leaves it locked, and a locked mutex is granted
/// to nobody until it is unlocked.
pub proof fn law_mutex_exclusive<T>(
    mutex: MutexView<T>,
    waiter: Waiter,
    waker: Waker,
    other: Waiter,
)
    requires
        mutex.grants(waiter),
    ensures
        mutex.polled(waiter, waker).locked,
        !mutex.polled(waiter, waker).grants(other),
        mutex.polled(waiter, waker).polled(other, waker).locked,
        !mutex.polled(waiter, waker).unlocked().locked,
{
}

/// A mutex that nobody holds is granted to whoever asks without waiting.
pub proof fn law_mutex_free<T>(mutex: MutexView<T>)
    requires
        !mutex.locked,
    ensures
        mutex.grants(None),
{
}

/// Locking and unlocking never touch the protected value.
pub proof fn law_mutex_keeps_value<T>(mutex: MutexView<T>, waiter: Waiter, waker: Waker)
    ensures
        mutex.polled(waiter, waker).value == mutex.value,
        mutex.unlocked().value == mutex.value,
        mutex.given_up(waiter).value == mutex.value,
{
}

/// Whether no task is forgotten: while nobody holds the mutex, one of the tasks that wait for
/// it, if there are any, has been notified.
pub open spec fn mutex_attended<T>(mutex: MutexView<T>) -> bool {
    !mutex.locked ==> laws::attended(mutex.event)
}

/// No wake-up is lost: whatever happens to a mutex, it never lies free while the tasks that
/// wait for it have all been left without a notification.
pub proof fn law_mutex_no_lost_wakeup<T>(
    mutex: MutexView<T>,
    waiter: Waiter,
    waker: Waker,
    value: T,
)
    requires
        mutex.event.wf(),
        mutex_attended(mutex),
        wait::attached(waiter, mutex.event),
    ensures
        mutex_attended(mutex.polled(waiter, waker)),
        mutex_attended(mutex.unlocked()),
        mutex_attended(mutex.given_up(waiter)),
        mutex_attended(mutex.written(value)),
{
    laws::law_signal_attends(mutex.event);
    if let Some(id) = waiter {
        if !mutex.locked {
            laws::law_waiting_attends(mutex.event, id, waker);
            laws::law_dropped_attends(mutex.event, id);
        }
    }
}

/// A writer is alone: whoever gets the lock for writing finds no reader and no other writer,
/// and as long as the lock stays locked nobody else gets it.
pub proof fn law_writer_exclusive<T>(
    lock: RwLockView<T>,
    waiter: Waiter,
    waker: Waker,
    other: Waiter,
)
    requires
        lock.grants_write(waiter),
    ensures
        lock.readers == 0 && !lock.locked,
        lock.polled_write(waiter, waker).locked,
        !lock.polled_write(waiter, waker).grants_read(other),
        !lock.polled_write(waiter, waker).grants_write(other),
{
}

/// Readers keep writers out, but not other readers.
pub proof fn law_readers_share<T>(lock: RwLockView<T>, waiter: Waiter, waker: Waker, other: Waiter)
    requires
        lock.grants_read(waiter),
        lock.readers < usize::MAX,
    ensures
        lock.polled_read(waiter, waker).readers == lock.readers + 1,
        !lock.polled_read(waiter, waker).grants_write(other),
        lock.polled_read(waiter, waker).grants_read(None),
        lock.polled_read(waiter, waker).without_reader().readers == lock.readers,
{
}

/// A lock that nobody holds is granted to whoever asks without waiting, for reading and for
/// writing; once the last reader or the writer is out, it is such a lock again.
pub proof fn law_rwlock_free<T>(lock: RwLockView<T>)
    requires
        lock.wf(),
    ensures
        lock.can_write() ==> lock.grants_read(None) && lock.grants_write(None),
        lock.locked ==> lock.unlocked().can_write(),
        lock.readers == 1 ==> lock.without_reader().can_write(),
{
}

/// Locking and unlocking never touch the protected value.
pub proof fn law_rwlock_keeps_value<T>(lock: RwLockView<T>, waiter: Waiter, waker: Waker)
    ensures
        lock.polled_read(waiter, waker).value == lock.value,
        lock.polled_write(waiter, waker).value == lock.value,
        lock.without_reader().value == lock.value,
        lock.unlocked().value == lock.value,
        lock.given_up(waiter).value == lock.value,
{
}

/// Whether no task is forgotten: while nobody holds the lock, one of the tasks that wait for
/// it, if there are any, has been notified.
pub open spec fn rwlock_attended<T>(lock: RwLockView<T>) -> bool {
    lock.can_write() ==> laws::attended(lock.event)
}

/// No wake-up is lost: whatever happens to a lock, it never lies free while the tasks that wait
/// for it have all been left without a notification.
pub proof fn law_rwlock_no_lost_wakeup<T>(
    lock: RwLockView<T>,
    waiter: Waiter,
    waker: Waker,
    value: T,
)
    requires
        lock.wf(),
        rwlock_attended(lock),
        wait::attached(waiter, lock.event),
        lock.grants_read(waiter) ==> lock.readers < usize::MAX,
    ensures
        rwlock_attended(lock.polled_read(waiter, waker)),
        rwlock_attended(lock.polled_write(waiter, waker)),
        rwlock_attended(lock.without_reader()),
        rwlock_attended(lock.unlocked()),
        rwlock_attended(lock.given_up(waiter)),
        rwlock_attended(lock.written(value)),
{
    laws::law_signal_attends(lock.event);
    if let Some(id) = waiter {
        if lock.can_write() {
            laws::law_waiting_attends(lock.event, id, waker);
            laws::law_dropped_attends(lock.event, id);
        }
    }
}

/// Something that is done to a mutex.
pub enum MutexStep<T> {
    /// A future that may be waiting with `waiter` is polled for the lock.
    Poll { waiter: Waiter, waker: Waker },
    /// A future that may be waiting with this listener is given up.
    GiveUp(Waiter),
    /// A guard changes the value.
    Write(T),
    /// A guard is given back.
    DropGuard,
}

/// The mutex after a run of steps.
pub open spec fn mutex_after<T>(mutex: MutexView<T>, run: Seq<MutexStep<T>>) -> MutexView<T>
    decreases run.len(),
{
    if run.len() == 0 {
        mutex
    } else {
        let before = mutex_after(mutex, run.drop_last());
        match run.last() {
            MutexStep::Poll { waiter, waker } => before.polled(waiter, waker),
            MutexStep::GiveUp(waiter) => before.given_up(waiter),
            MutexStep::Write(value) => before.written(value),
            MutexStep::DropGuard => before.unlocked(),
        }
    }
}

/// The number of guards that are out after a run: one more for every poll that gets the lock, one
/// less for every guard that is given back.
pub open spec fn mutex_guards<T>(mutex: MutexView<T>, run: Seq<MutexStep<T>>) -> int
    decreases run.len(),
{
    if run.len() == 0 {
        0
    } else {
        mutex_guards(mutex, run.drop_last()) + match run.last() {
            MutexStep::Poll { waiter, .. } if mutex_after(mutex, run.drop_last()).grants(waiter) =>
            1int,
            MutexStep::DropGuard => -1int,
            _ => 0int,
        }
    }
}

/// Whether each step of a run can be done when its turn comes; what a guard does takes a guard.
pub open spec fn mutex_possible<T>(mutex: MutexView<T>, run: Seq<MutexStep<T>>) -> bool
    decreases run.len(),
{
    run.len() > 0 ==> {
        &&& mutex_possible(mutex, run.drop_last())
        &&& match run.last() {
            MutexStep::Poll { waiter, .. } => mutex_after(mutex, run.drop_last()).pollable(waiter),
            MutexStep::GiveUp(_) => true,
            _ => mutex_guards(mutex, run.drop_last()) > 0,
        }
    }
}

/// The value that a run wrote last, or the one from before the run.
pub open spec fn mutex_written<T>(mutex: MutexView<T>, run: Seq<MutexStep<T>>) -> T
    decreases run.len(),
{
    if run.len() == 0 {
        mutex.value
    } else {
        match run.last() {
            MutexStep::Write(value) => value,
            _ => mutex_written(mutex, run.drop_last()),
        }
    }
}

/// Over any run on a mutex that nobody holds at the beginning, at most one guard is out at a time,
/// the mutex is locked exactly while one is, and it holds what a guard wrote last.
pub proof fn law_mutex_one_guard<T>(mutex: MutexView<T>, run: Seq<MutexStep<T>>)
    requires
        !mutex.locked,
        mutex_possible(mutex, run),
    ensures
        0 <= mutex_guards(mutex, run) <= 1,
        mutex_after(mutex, run).locked <==> mutex_guards(mutex, run) == 1,
        mutex_after(mutex, run).value == mutex_written(mutex, run),
    decreases run.len(),
{
    if run.len() > 0 {
        law_mutex_one_guard(mutex, run.drop_last());
    }
}

/// Something that is done to a read-write lock.
pub enum RwLockStep<T> {
    /// A future that may be waiting with `waiter` is polled for reading.
    PollRead { waiter: Waiter, waker: Waker },
    /// A future that may be waiting with `waiter` is polled for getting at the value alone.
    PollWrite { waiter: Waiter, waker: Waker },
    /// A future that may be waiting with this listener is given up.
    GiveUp(Waiter),
    /// An exclusive guard changes the value.
    Write(T),
    /// A read guard is given back.
    DropReader,
    /// An exclusive guard is given back.
    DropExclusive,
}

/// The lock after a run of steps.
pub open spec fn rwlock_after<T>(lock: RwLockView<T>, run: Seq<RwLockStep<T>>) -> RwLockView<T>
    decreases run.len(),
{
    if run.len() == 0 {
        lock
    } else {
        let before = rwlock_after(lock, run.drop_last());
        match run.last() {
            RwLockStep::PollRead { waiter, waker } => before.polled_read(waiter, waker),
            RwLockStep::PollWrite { waiter, waker } => before.polled_write(waiter, waker),
            RwLockStep::GiveUp(waiter) => before.given_up(waiter),
            RwLockStep::Write(value) => before.written(value),
            RwLockStep::DropReader => before.without_reader(),
            RwLockStep::DropExclusive => before.unlocked(),
        }
    }
}

/// The number of read guards that are out after a run.
pub open spec fn read_guards<T>(lock: RwLockView<T>, run: Seq<RwLockStep<T>>) -> int
    decreases run.len(),
{
    if run.len() == 0 {
        0
    } else {
        let before = rwlock_after(lock, run.drop_last());
        read_guards(lock, run.drop_last()) + match run.last() {
            RwLockStep::PollRead { waiter, .. } if before.grants_read(waiter) => 1int,
            RwLockStep::DropReader => -1int,
            _ => 0int,
        }
    }
}

/// The number of exclusive guards that are out after a run.
pub open spec fn exclusive_guards<T>(lock: RwLockView<T>, run: Seq<RwLockStep<T>>) -> int
    decreases run.len(),
{
    if run.len() == 0 {
        0
    } else {
        let before = rwlock_after(lock, run.drop_last());
        exclusive_guards(lock, run.drop_last()) + match run.last() {
            RwLockStep::PollWrite { waiter, .. } if before.grants_write(waiter) => 1int,
            RwLockStep::DropExclusive => -1int,
            _ => 0int,
        }
    }
}

/// Whether each step of a run can be done when its turn comes; what a guard does takes a guard.
pub open spec fn rwlock_possible<T>(lock: RwLockView<T>, run: Seq<RwLockStep<T>>) -> bool
    decreases run.len(),
{
    run.len() > 0 ==> {
        let before = rwlock_after(lock, run.drop_last());
        &&& rwlock_possible(lock, run.drop_last())
        &&& match run.last() {
            RwLockStep::PollRead { waiter, .. } => before.pollable_read(waiter),
            RwLockStep::PollWrite { waiter, .. } => before.pollable_write(waiter),
            RwLockStep::GiveUp(_) => true,
            RwLockStep::DropReader => read_guards(lock, run.drop_last()) > 0,
            _ => exclusive_guards(lock, run.drop_last()) > 0,
        }
    }
}

/// The value that a run wrote last, or the one from before the run.
pub open spec fn rwlock_written<T>(lock: RwLockView<T>, run: Seq<RwLockStep<T>>) -> T
    decreases run.len(),
{
    if run.len() == 0 {
        lock.value
    } else {
        match run.last() {
            RwLockStep::Write(value) => value,
            _ => rwlock_written(lock, run.drop_last()),
        }
    }
}

/// Over any run on a lock that nobody holds at the beginning, at most one exclusive guard is out
/// at a time, and no read guard with it; the lock counts the read guards that are out and is locked
/// exactly while an exclusive one is; and it holds what an exclusive guard wrote last.
pub proof fn law_rwlock_guards<T>(lock: RwLockView<T>, run: Seq<RwLockStep<T>>)
    requires
        lock.can_write(),
        rwlock_possible(lock, run),
    ensures
        0 <= exclusive_guards(lock, run) <= 1,
        rwlock_after(lock, run).locked <==> exclusive_guards(lock, run) == 1,
        rwlock_after(lock, run).readers == read_guards(lock, run),
        exclusive_guards(lock, run) == 1 ==> read_guards(lock, run) == 0,
        rwlock_after(lock, run).value == rwlock_written(lock, run),
    decreases run.len(),
{
    if run.len() > 0 {
        law_rwlock_guards(lock, run.drop_last());
    }
}

} // verus!
