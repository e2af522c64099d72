//! A lock for one writer or several readers.
use core::marker::PhantomData;
use core::task::{Poll, Waker};

use vstd::prelude::*;

use crate::event::{Event, EventView};
use crate::wait;
use crate::wait::{WaitState, Waiter};

verus! {

/// What a read-write lock holds.
#[verifier::ext_equal]
pub struct RwLockView<T> {
    /// The protected value.
    pub value: T,
    /// Notifies tasks that wait for the lock.
    pub event: EventView<()>,
    /// The number of read guards that are out.
    pub readers: usize,
    /// Whether an exclusive guard is out.
    pub locked: bool,
}

impl<T> RwLockView<T> {
    /// Nobody reads while an exclusive guard is out.
    pub open spec fn wf(self) -> bool {
        &&& self.event.wf()
        &&& self.locked ==> self.readers == 0
    }

    /// Whether one more reader can be let in.
    pub open spec fn can_read(self) -> bool {
        !self.locked
    }

    /// Whether a writer can be let in.
    pub open spec fn can_write(self) -> bool {
        !self.locked && self.readers == 0
    }

    /// `self` with one more reader.
    pub open spec fn with_reader(self) -> RwLockView<T> {
        RwLockView {
            readers: (self.readers + 1) as usize,
            event: self.event.signaled(1),
            ..self
        }
    }

    /// `self` with one reader less.
    pub open spec fn without_reader(self) -> RwLockView<T> {
        RwLockView {
            readers: (self.readers - 1) as usize,
            event: self.event.signaled(1),
            ..self
        }
    }

    /// `self` once it has been locked for one task alone.
    pub open spec fn acquired(self) -> RwLockView<T> {
        RwLockView { locked: true, event: self.event.signaled(1), ..self }
    }

    /// `self` once it has been unlocked.
    pub open spec fn unlocked(self) -> RwLockView<T> {
        RwLockView { locked: false, event: self.event.signaled(1), ..self }
    }

    /// `self` once a task that may have been waiting with `waiter` has stopped waiting.
    pub open spec fn released(self, waiter: Waiter) -> RwLockView<T> {
        RwLockView { event: wait::released(waiter, self.event), ..self }
    }

    /// `self` once a task that may have been waiting with `waiter` has given that up.
    pub open spec fn given_up(self, waiter: Waiter) -> RwLockView<T> {
        RwLockView { event: wait::abandoned(waiter, self.event), ..self }
    }

    /// `self` with another protected value.
    pub open spec fn written(self, value: T) -> RwLockView<T> {
        RwLockView { value, ..self }
    }

    /// `self` once a task, which does not have to wait to be notified, waits again.
    pub open spec fn waiting_again(self, waiter: Waiter, waker: Waker) -> RwLockView<T> {
        RwLockView { event: self.released(waiter).event.with_listener(Some(waker)), ..self }
    }

    /// What has to hold for polling for reading: a future that waits does so with a
    /// registered listener, and one that starts to wait finds a free listener number,
    /// and one that is let in can be counted.
    pub open spec fn pollable_read(self, waiter: Waiter) -> bool {
        &&& wait::attached(waiter, self.event)
        &&& wait::ready(waiter, self.event) && !self.can_read() ==> self.event.next_id < usize::MAX
        &&& self.grants_read(waiter) ==> self.readers < usize::MAX
    }

    /// Whether polling for reading succeeds: the future does not have to wait to be
    /// notified, and nobody is in the way.
    pub open spec fn grants_read(self, waiter: Waiter) -> bool {
        wait::ready(waiter, self.event) && self.can_read()
    }

    /// The lock after polling for reading.
    pub open spec fn polled_read(self, waiter: Waiter, waker: Waker) -> RwLockView<T> {
        if !wait::ready(waiter, self.event) {
            // Not notified yet.
            RwLockView { event: wait::parked(waiter, self.event, waker), ..self }
        } else if self.can_read() {
            self.released(waiter).with_reader()
        } else {
            self.waiting_again(waiter, waker)
        }
    }

    /// The listener that a future waits with after polling for reading.
    pub open spec fn polled_waiter_read(self, waiter: Waiter) -> Waiter {
        if !wait::ready(waiter, self.event) {
            waiter
        } else if self.can_read() {
            None
        } else {
            Some(self.event.next_id)
        }
    }

    /// The wakers that polling for reading wakes.
    pub open spec fn polled_wakers_read(self, waiter: Waiter) -> Seq<Waker> {
        if self.grants_read(waiter) {
            self.released(waiter).event.signaled_wakers(1)
        } else {
            Seq::empty()
        }
    }

    /// What has to hold for polling for writing: a future that waits does so with a
    /// registered listener, and one that starts to wait finds a free listener number.
    pub open spec fn pollable_write(self, waiter: Waiter) -> bool {
        &&& wait::attached(waiter, self.event)
        &&& wait::ready(waiter, self.event) && !self.can_write() ==> self.event.next_id < usize::MAX
    }

    /// Whether polling for writing succeeds: the future does not have to wait to be
    /// notified, and nobody is in the way.
    pub open spec fn grants_write(self, waiter: Waiter) -> bool {
        wait::ready(waiter, self.event) && self.can_write()
    }

    /// The lock after polling for writing.
    pub open spec fn polled_write(self, waiter: Waiter, waker: Waker) -> RwLockView<T> {
        if !wait::ready(waiter, self.event) {
            // Not notified yet.
            RwLockView { event: wait::parked(waiter, self.event, waker), ..self }
        } else if self.can_write() {
            self.released(waiter).acquired()
        } else {
            self.waiting_again(waiter, waker)
        }
    }

    /// The listener that a future waits with after polling for writing.
    pub open spec fn polled_waiter_write(self, waiter: Waiter) -> Waiter {
        if !wait::ready(waiter, self.event) {
            waiter
        } else if self.can_write() {
            None
        } else {
            Some(self.event.next_id)
        }
    }

    /// The wakers that polling for writing wakes.
    pub open spec fn polled_wakers_write(self, waiter: Waiter) -> Seq<Waker> {
        if self.grants_write(waiter) {
            self.released(waiter).event.signaled_wakers(1)
        } else {
            Seq::empty()
        }
    }
}

struct RwLockInner<T> {
    value: T,
    event: Event,
    readers: usize,
    locked: bool,
}

impl<T> RwLockInner<T> {
    spec fn view(&self) -> RwLockView<T> {
        RwLockView {
            value: self.value,
            event: self.event@,
            readers: self.readers,
            locked: self.locked,
        }
    }

    fn can_read(&self) -> (can: bool)
        ensures
            can == self@.can_read(),
    {
        !self.locked
    }

    fn can_write(&self) -> (can: bool)
        ensures
            can == self@.can_write(),
    {
        !self.locked && self.readers == 0
    }

    fn increment_readers(&mut self, woken: &mut Vec<Waker>)
        requires
            old(self).event.wf(),
            old(self)@.readers < usize::MAX,
        ensures
            final(self).event.wf(),
            final(self)@ == old(self)@.with_reader(),
            final(woken)@ == old(woken)@ + old(self)@.event.signaled_wakers(1),
    {
        self.readers = self.readers + 1;
        self.event.signal(1, woken);
    }

    fn decrement_readers(&mut self, woken: &mut Vec<Waker>)
        requires
            old(self).event.wf(),
            old(self)@.readers > 0,
        ensures
            final(self).event.wf(),
            final(self)@ == old(self)@.without_reader(),
            final(woken)@ == old(woken)@ + old(self)@.event.signaled_wakers(1),
    {
        self.readers = self.readers - 1;
        self.event.signal(1, woken);
    }

    fn lock(&mut self, woken: &mut Vec<Waker>)
        requires
            old(self).event.wf(),
        ensures
            final(self).event.wf(),
            final(self)@ == old(self)@.acquired(),
            final(woken)@ == old(woken)@ + old(self)@.event.signaled_wakers(1),
    {
        self.locked = true;
        self.event.signal(1, woken);
    }

    fn unlock(&mut self, woken: &mut Vec<Waker>)
        requires
            old(self).event.wf(),
        ensures
            final(self).event.wf(),
            final(self)@ == old(self)@.unlocked(),
            final(woken)@ == old(woken)@ + old(self)@.event.signaled_wakers(1),
    {
        self.locked = false;
        self.event.signal(1, woken);
    }

    /// Whether reading can be polled for: there is a number if the task has to start to wait, and
    /// it can be counted if it is let in.
    fn can_poll_read(&self, state: &WaitState) -> (can: bool)
        requires
            self.event.wf(),
        ensures
            can == self@.pollable_read(state@),
    {
        if !state.is_attached(&self.event) {
            false
        } else if !state.is_ready(&self.event) {
            true
        } else if self.can_read() {
            self.readers < usize::MAX
        } else {
            self.event.can_listen()
        }
    }

    /// Whether the lock can be polled for: there is a number if the task has to start to wait.
    fn can_poll_write(&self, state: &WaitState) -> (can: bool)
        requires
            self.event.wf(),
        ensures
            can == self@.pollable_write(state@),
    {
        if !state.is_attached(&self.event) {
            false
        } else if state.is_ready(&self.event) && !self.can_write() {
            self.event.can_listen()
        } else {
            true
        }
    }

    /// Takes the lock for reading, or waits for it.
    fn poll_read(
        &mut self,
        state: &mut WaitState,
        waker: Waker,
        woken: &mut Vec<Waker>,
    ) -> (acquired: bool)
        requires
            old(self).event.wf(),
            old(self)@.pollable_read(old(state)@),
        ensures
            final(self).event.wf(),
            acquired == old(self)@.grants_read(old(state)@),
            final(self)@ == old(self)@.polled_read(old(state)@, waker),
            final(state)@ == old(self)@.polled_waiter_read(old(state)@),
            final(woken)@ == old(woken)@ + old(self)@.polled_wakers_read(old(state)@),
            wait::attached(final(state)@, final(self)@.event),
    {
        if !state.resume(&mut self.event) {
            state.park(&mut self.event, waker);
            return false;
        }
        if self.can_read() {
            self.increment_readers(woken);
            return true;
        }
        state.park(&mut self.event, waker);
        false
    }

    /// Takes the lock for one task alone, or waits for it.
    fn poll_write(
        &mut self,
        state: &mut WaitState,
        waker: Waker,
        woken: &mut Vec<Waker>,
    ) -> (acquired: bool)
        requires
            old(self).event.wf(),
            old(self)@.pollable_write(old(state)@),
        ensures
            final(self).event.wf(),
            acquired == old(self)@.grants_write(old(state)@),
            final(self)@ == old(self)@.polled_write(old(state)@, waker),
            final(state)@ == old(self)@.polled_waiter_write(old(state)@),
            final(woken)@ == old(woken)@ + old(self)@.polled_wakers_write(old(state)@),
            wait::attached(final(state)@, final(self)@.event),
    {
        if !state.resume(&mut self.event) {
            state.park(&mut self.event, waker);
            return false;
        }
        if self.can_write() {
            self.lock(woken);
            return true;
        }
        state.park(&mut self.event, waker);
        false
    }
}

/// A value that one writer or several readers at a time can get at.
pub struct RwLock<T>(RwLockInner<T>);

impl<T> View for RwLock<T> {
    type V = RwLockView<T>;

    closed spec fn view(&self) -> RwLockView<T> {
        self.0@
    }
}

impl<T> RwLock<T> {
    /// The event's own bookkeeping is in order.
    pub closed spec fn event_wf(&self) -> bool {
        self.0.event.wf()
    }

    /// The invariant of a read-write lock.
    pub open spec fn wf(&self) -> bool {
        self@.wf() && self.event_wf()
    }

    /// The number of read guards that are out.
    pub fn readers(&self) -> (n: usize)
        ensures
            n == self@.readers,
    {
        self.0.readers
    }

    /// A lock that nobody holds.
    pub fn new(value: T) -> (lock: Self)
        ensures
            lock.wf(),
            lock@ == (RwLockView {
                value,
                event: EventView { listeners: Seq::empty(), next_id: 0, open: true },
                readers: 0,
                locked: false,
            }),
    {
        RwLock(RwLockInner { value, event: Event::new(), readers: 0, locked: false })
    }

    /// The future that takes the lock for reading.
    pub fn read(&self) -> (future: ReadLockFuture<T>)
        ensures
            future.waiter() is None,
    {
        ReadLockFuture { state: WaitState::Idle, marker: PhantomData }
    }

    /// The future that takes the lock for writing.
    pub fn write(&self) -> (future: WriteLockFuture<T>)
        ensures
            future.waiter() is None,
    {
        WriteLockFuture { state: WaitState::Idle, marker: PhantomData }
    }

    /// The future that takes the lock for a read guard that shares it. Such a guard can change
    /// the value, so it is out alone, as a write guard is.
    pub fn read_rc(&self) -> (future: RcReadLockFuture<T>)
        ensures
            future.waiter() is None,
    {
        RcReadLockFuture { state: WaitState::Idle, marker: PhantomData }
    }

    /// The future that takes the lock for a write guard that shares it.
    pub fn write_rc(&self) -> (future: RcWriteLockFuture<T>)
        ensures
            future.waiter() is None,
    {
        RcWriteLockFuture { state: WaitState::Idle, marker: PhantomData }
    }
}

/// The right to read the value of a lock.
pub struct RwLockReadGuard<T> {
    marker: PhantomData<T>,
}

impl<T> RwLockReadGuard<T> {
    /// The protected value.
    pub fn deref<'a>(&self, lock: &'a RwLock<T>) -> (value: &'a T)
        ensures
            *value == lock@.value,
    {
        &lock.0.value
    }

    /// Gives the guard back, which lets the reader out.
    pub fn drop(self, lock: &mut RwLock<T>, woken: &mut Vec<Waker>)
        requires
            old(lock).wf(),
            old(lock)@.readers > 0,
        ensures
            final(lock).wf(),
            final(lock)@ == old(lock)@.without_reader(),
            final(woken)@ == old(woken)@ + old(lock)@.event.signaled_wakers(1),
    {
        lock.0.decrement_readers(woken);
    }
}

/// A task that wants to read the value of a lock.
pub struct ReadLockFuture<T> {
    state: WaitState,
    marker: PhantomData<T>,
}

impl<T> ReadLockFuture<T> {
    /// The listener that the future waits for the lock with.
    pub closed spec fn waiter(&self) -> Waiter {
        self.state@
    }

    /// Whether reading can be polled for: there is a number if the task has to start to wait, and
    /// it can be counted if it is let in.
    pub fn can_poll(&self, lock: &RwLock<T>) -> (can: bool)
        requires
            lock.wf(),
        ensures
            can == lock@.pollable_read(self.waiter()),
    {
        lock.0.can_poll_read(&self.state)
    }

    /// Takes the lock for reading, or waits for it.
    pub fn poll(
        &mut self,
        lock: &mut RwLock<T>,
        waker: Waker,
        woken: &mut Vec<Waker>,
    ) -> (polled: Poll<RwLockReadGuard<T>>)
        requires
            old(lock).wf(),
            old(lock)@.pollable_read(old(self).waiter()),
        ensures
            final(lock).wf(),
            polled is Ready == old(lock)@.grants_read(old(self).waiter()),
            final(lock)@ == old(lock)@.polled_read(old(self).waiter(), waker),
            final(self).waiter() == old(lock)@.polled_waiter_read(old(self).waiter()),
            final(woken)@ == old(woken)@ + old(lock)@.polled_wakers_read(old(self).waiter()),
            wait::attached(final(self).waiter(), final(lock)@.event),
    {
        if lock.0.poll_read(&mut self.state, waker, woken) {
            Poll::Ready(RwLockReadGuard { marker: PhantomData })
        } else {
            Poll::Pending
        }
    }

    /// Gives the future up. If it had been notified, another waiting task is notified in its
    /// place.
    pub fn drop(self, lock: &mut RwLock<T>, woken: &mut Vec<Waker>)
        requires
            old(lock).wf(),
        ensures
            final(lock).wf(),
            final(lock)@ == old(lock)@.given_up(self.waiter()),
            final(woken)@ == old(woken)@ + wait::abandoned_wakers(
                self.waiter(),
                old(lock)@.event,
            ),
    {
        self.state.abandon(&mut lock.0.event, woken);
    }
}

/// The right to change the value of a lock.
pub struct RwLockWriteGuard<T> {
    marker: PhantomData<T>,
}

impl<T> RwLockWriteGuard<T> {
    /// The protected value.
    pub fn deref<'a>(&self, lock: &'a RwLock<T>) -> (value: &'a T)
        ensures
            *value == lock@.value,
    {
        &lock.0.value
    }

    /// The protected value, to be changed.
    pub fn deref_mut<'a>(&mut self, lock: &'a mut RwLock<T>) -> (value: &'a mut T)
        ensures
            *value == old(lock)@.value,
            final(lock)@ == old(lock)@.written(*final(value)),
            old(lock).wf() ==> final(lock).wf(),
    {
        &mut lock.0.value
    }

    /// Gives the guard back, which unlocks the lock.
    pub fn drop(self, lock: &mut RwLock<T>, woken: &mut Vec<Waker>)
        requires
            old(lock).wf(),
        ensures
            final(lock).wf(),
            final(lock)@ == old(lock)@.unlocked(),
            final(woken)@ == old(woken)@ + old(lock)@.event.signaled_wakers(1),
    {
        lock.0.unlock(woken);
    }
}

/// A task that wants to change the value of a lock.
pub struct WriteLockFuture<T> {
    state: WaitState,
    marker: PhantomData<T>,
}

impl<T> WriteLockFuture<T> {
    /// The listener that the future waits for the lock with.
    pub closed spec fn waiter(&self) -> Waiter {
        self.state@
    }

    /// Whether the lock can be polled for: there is a number if the task has to start to wait.
    pub fn can_poll(&self, lock: &RwLock<T>) -> (can: bool)
        requires
            lock.wf(),
        ensures
            can == lock@.pollable_write(self.waiter()),
    {
        lock.0.can_poll_write(&self.state)
    }

    /// Takes the lock for itself alone, or waits for it.
    pub fn poll(
        &mut self,
        lock: &mut RwLock<T>,
        waker: Waker,
        woken: &mut Vec<Waker>,
    ) -> (polled: Poll<RwLockWriteGuard<T>>)
        requires
            old(lock).wf(),
            old(lock)@.pollable_write(old(self).waiter()),
        ensures
            final(lock).wf(),
            polled is Ready == old(lock)@.grants_write(old(self).waiter()),
            final(lock)@ == old(lock)@.polled_write(old(self).waiter(), waker),
            final(self).waiter() == old(lock)@.polled_waiter_write(old(self).waiter()),
            final(woken)@ == old(woken)@ + old(lock)@.polled_wakers_write(old(self).waiter()),
            wait::attached(final(self).waiter(), final(lock)@.event),
    {
        if lock.0.poll_write(&mut self.state, waker, woken) {
            Poll::Ready(RwLockWriteGuard { marker: PhantomData })
        } else {
            Poll::Pending
        }
    }

    /// Gives the future up. If it had been notified, another waiting task is notified in its
    /// place.
    pub fn drop(self, lock: &mut RwLock<T>, woken: &mut Vec<Waker>)
        requires
            old(lock).wf(),
        ensures
            final(lock).wf(),
            final(lock)@ == old(lock)@.given_up(self.waiter()),
            final(woken)@ == old(woken)@ + wait::abandoned_wakers(
                self.waiter(),
                old(lock)@.event,
            ),
    {
        self.state.abandon(&mut lock.0.event, woken);
    }
}

/// The right to get at the value of a lock that the guard shares.
pub struct RcReadLockGuard<T> {
    marker: PhantomData<T>,
}

impl<T> RcReadLockGuard<T> {
    /// The protected value.
    pub fn deref<'a>(&self, lock: &'a RwLock<T>) -> (value: &'a T)
        ensures
            *value == lock@.value,
    {
        &lock.0.value
    }

    /// The protected value, to be changed.
    pub fn deref_mut<'a>(&mut self, lock: &'a mut RwLock<T>) -> (value: &'a mut T)
        ensures
            *value == old(lock)@.value,
            final(lock)@ == old(lock)@.written(*final(value)),
            old(lock).wf() ==> final(lock).wf(),
    {
        &mut lock.0.value
    }

    /// Gives the guard back, which unlocks the lock.
    pub fn drop(self, lock: &mut RwLock<T>, woken: &mut Vec<Waker>)
        requires
            old(lock).wf(),
        ensures
            final(lock).wf(),
            final(lock)@ == old(lock)@.unlocked(),
            final(woken)@ == old(woken)@ + old(lock)@.event.signaled_wakers(1),
    {
        lock.0.unlock(woken);
    }
}

/// A task that wants to get at the value of a lock that it shares.
pub struct RcReadLockFuture<T> {
    state: WaitState,
    marker: PhantomData<T>,
}

impl<T> RcReadLockFuture<T> {
    /// The listener that the future waits for the lock with.
    pub closed spec fn waiter(&self) -> Waiter {
        self.state@
    }

    /// Whether the lock can be polled for: there is a number if the task has to start to wait.
    pub fn can_poll(&self, lock: &RwLock<T>) -> (can: bool)
        requires
            lock.wf(),
        ensures
            can == lock@.pollable_write(self.waiter()),
    {
        lock.0.can_poll_write(&self.state)
    }

    /// Takes the lock for itself alone, or waits for it.
    pub fn poll(
        &mut self,
        lock: &mut RwLock<T>,
        waker: Waker,
        woken: &mut Vec<Waker>,
    ) -> (polled: Poll<RcReadLockGuard<T>>)
        requires
            old(lock).wf(),
            old(lock)@.pollable_write(old(self).waiter()),
        ensures
            final(lock).wf(),
            polled is Ready == old(lock)@.grants_write(old(self).waiter()),
            final(lock)@ == old(lock)@.polled_write(old(self).waiter(), waker),
            final(self).waiter() == old(lock)@.polled_waiter_write(old(self).waiter()),
            final(woken)@ == old(woken)@ + old(lock)@.polled_wakers_write(old(self).waiter()),
            wait::attached(final(self).waiter(), final(lock)@.event),
    {
        if lock.0.poll_write(&mut self.state, waker, woken) {
            Poll::Ready(RcReadLockGuard { marker: PhantomData })
        } else {
            Poll::Pending
        }
    }

    /// Gives the future up. If it had been notified, another waiting task is notified in its
    /// place.
    pub fn drop(self, lock: &mut RwLock<T>, woken: &mut Vec<Waker>)
        requires
            old(lock).wf(),
        ensures
            final(lock).wf(),
            final(lock)@ == old(lock)@.given_up(self.waiter()),
            final(woken)@ == old(woken)@ + wait::abandoned_wakers(
                self.waiter(),
                old(lock)@.event,
            ),
    {
        self.state.abandon(&mut lock.0.event, woken);
    }
}

/// The right to change the value of a lock that the guard shares.
pub struct RcWriteLockGuard<T> {
    marker: PhantomData<T>,
}

impl<T> RcWriteLockGuard<T> {
    /// The protected value.
    pub fn deref<'a>(&self, lock: &'a RwLock<T>) -> (value: &'a T)
        ensures
            *value == lock@.value,
    {
        &lock.0.value
    }

    /// The protected value, to be changed.
    pub fn deref_mut<'a>(&mut self, lock: &'a mut RwLock<T>) -> (value: &'a mut T)
        ensures
            *value == old(lock)@.value,
            final(lock)@ == old(lock)@.written(*final(value)),
            old(lock).wf() ==> final(lock).wf(),
    {
        &mut lock.0.value
    }

    /// Gives the guard back, which unlocks the lock.
    pub fn drop(self, lock: &mut RwLock<T>, woken: &mut Vec<Waker>)
        requires
            old(lock).wf(),
        ensures
            final(lock).wf(),
            final(lock)@ == old(lock)@.unlocked(),
            final(woken)@ == old(woken)@ + old(lock)@.event.signaled_wakers(1),
    {
        lock.0.unlock(woken);
    }
}

/// A task that wants to change the value of a lock that it shares.
pub struct RcWriteLockFuture<T> {
    state: WaitState,
    marker: PhantomData<T>,
}

impl<T> RcWriteLockFuture<T> {
    /// The listener that the future waits for the lock with.
    pub closed spec fn waiter(&self) -> Waiter {
        self.state@
    }

    /// Whether the lock can be polled for: there is a number if the task has to start to wait.
    pub fn can_poll(&self, lock: &RwLock<T>) -> (can: bool)
        requires
            lock.wf(),
        ensures
            can == lock@.pollable_write(self.waiter()),
    {
        lock.0.can_poll_write(&self.state)
    }

    /// Takes the lock for itself alone, or waits for it.
    pub fn poll(
        &mut self,
        lock: &mut RwLock<T>,
        waker: Waker,
        woken: &mut Vec<Waker>,
    ) -> (polled: Poll<RcWriteLockGuard<T>>)
        requires
            old(lock).wf(),
            old(lock)@.pollable_write(old(self).waiter()),
        ensures
            final(lock).wf(),
            polled is Ready == old(lock)@.grants_write(old(self).waiter()),
            final(lock)@ == old(lock)@.polled_write(old(self).waiter(), waker),
            final(self).waiter() == old(lock)@.polled_waiter_write(old(self).waiter()),
            final(woken)@ == old(woken)@ + old(lock)@.polled_wakers_write(old(self).waiter()),
            wait::attached(final(self).waiter(), final(lock)@.event),
    {
        if lock.0.poll_write(&mut self.state, waker, woken) {
            Poll::Ready(RcWriteLockGuard { marker: PhantomData })
        } else {
            Poll::Pending
        }
    }

    /// Gives the future up. If it had been notified, another waiting task is notified in its
    /// place.
    pub fn drop(self, lock: &mut RwLock<T>, woken: &mut Vec<Waker>)
        requires
            old(lock).wf(),
        ensures
            final(lock).wf(),
            final(lock)@ == old(lock)@.given_up(self.waiter()),
            final(woken)@ == old(woken)@ + wait::abandoned_wakers(
                self.waiter(),
                old(lock)@.event,
            ),
    {
        self.state.abandon(&mut lock.0.event, woken);
    }
}

} // verus!
