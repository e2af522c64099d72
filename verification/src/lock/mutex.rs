//! A lock for one task at a time.
use core::marker::PhantomData;
use core::task::{Poll, Waker};

use vstd::prelude::*;

use crate::event::{Event, EventView};
use crate::wait;
use crate::wait::{WaitState, Waiter};

verus! {

/// What a mutex holds.
#[verifier::ext_equal]
pub struct MutexView<T> {
    /// The protected value.
    pub value: T,
    /// Notifies tasks that wait for the lock.
    pub event: EventView<()>,
    /// Whether a guard is out.
    pub locked: bool,
}

impl<T> MutexView<T> {
    /// `self` once it has been locked.
    pub open spec fn acquired(self) -> MutexView<T> {
        MutexView { locked: true, event: self.event.signaled(1), ..self }
    }

    /// `self` once it has been unlocked.
    pub open spec fn unlocked(self) -> MutexView<T> {
        MutexView { locked: false, event: self.event.signaled(1), ..self }
    }

    /// `self` once a task that may have been waiting with `waiter` has stopped waiting.
    pub open spec fn released(self, waiter: Waiter) -> MutexView<T> {
        MutexView { event: wait::released(waiter, self.event), ..self }
    }

    /// `self` once a task that may have been waiting with `waiter` has given that up.
    pub open spec fn given_up(self, waiter: Waiter) -> MutexView<T> {
        MutexView { event: wait::abandoned(waiter, self.event), ..self }
    }

    /// `self` with another protected value.
    pub open spec fn written(self, value: T) -> MutexView<T> {
        MutexView { value, ..self }
    }

    /// What has to hold for polling for the lock: a future that waits does so with a
    /// registered listener, and one that starts to wait finds a free listener number.
    pub open spec fn pollable(self, waiter: Waiter) -> bool {
        &&& wait::attached(waiter, self.event)
        &&& wait::ready(waiter, self.event) && self.locked ==> self.event.next_id < usize::MAX
    }

    /// Whether polling for the lock gets it: the future does not have to wait to be notified,
    /// and nobody holds the lock.
    pub open spec fn grants(self, waiter: Waiter) -> bool {
        wait::ready(waiter, self.event) && !self.locked
    }

    /// The mutex after polling for the lock.
    pub open spec fn polled(self, waiter: Waiter, waker: Waker) -> MutexView<T> {
        if !wait::ready(waiter, self.event) {
            // Not notified yet.
            MutexView { event: wait::parked(waiter, self.event, waker), ..self }
        } else if !self.locked {
            self.released(waiter).acquired()
        } else {
            MutexView {
                event: self.released(waiter).event.with_listener(Some(waker)),
                ..self
            }
        }
    }

    /// The listener that a future waits with after polling for the lock.
    pub open spec fn polled_waiter(self, waiter: Waiter) -> Waiter {
        if !wait::ready(waiter, self.event) {
            waiter
        } else if !self.locked {
            None
        } else {
            Some(self.event.next_id)
        }
    }

    /// The wakers that polling for the lock wakes.
    pub open spec fn polled_wakers(self, waiter: Waiter) -> Seq<Waker> {
        if self.grants(waiter) {
            self.released(waiter).event.signaled_wakers(1)
        } else {
            Seq::empty()
        }
    }
}

struct AsyncMutexInner<T> {
    value: T,
    event: Event,
    locked: bool,
}

impl<T> AsyncMutexInner<T> {
    spec fn view(&self) -> MutexView<T> {
        MutexView { value: self.value, event: self.event@, locked: self.locked }
    }

    fn is_locked(&self) -> (locked: bool)
        ensures
            locked == self@.locked,
    {
        self.locked
    }

    fn lock(&mut self, woken: &mut Vec<Waker>)
        requires
            old(self).event.wf(),
        ensures
            final(self).event.wf(),
            final(self)@ == old(self)@.acquired(),
            final(woken)@ == old(woken)@ + old(self)@.event.signaled_wakers(1),
    {
        self.locked = true;
        self.event.signal(1, woken);
    }

    fn unlock(&mut self, woken: &mut Vec<Waker>)
        requires
            old(self).event.wf(),
        ensures
            final(self).event.wf(),
            final(self)@ == old(self)@.unlocked(),
            final(woken)@ == old(woken)@ + old(self)@.event.signaled_wakers(1),
    {
        self.locked = false;
        self.event.signal(1, woken);
    }

    /// Whether the lock can be polled for: there is a number if the task has to start to wait.
    fn can_poll(&self, state: &WaitState) -> (can: bool)
        requires
            self.event.wf(),
        ensures
            can == self@.pollable(state@),
    {
        if !state.is_attached(&self.event) {
            false
        } else if state.is_ready(&self.event) && self.locked {
            self.event.can_listen()
        } else {
            true
        }
    }

    /// Takes the lock, or waits for it.
    fn poll_lock(
        &mut self,
        state: &mut WaitState,
        waker: Waker,
        woken: &mut Vec<Waker>,
    ) -> (acquired: bool)
        requires
            old(self).event.wf(),
            old(self)@.pollable(old(state)@),
        ensures
            final(self).event.wf(),
            acquired == old(self)@.grants(old(state)@),
            final(self)@ == old(self)@.polled(old(state)@, waker),
            final(state)@ == old(self)@.polled_waiter(old(state)@),
            final(woken)@ == old(woken)@ + old(self)@.polled_wakers(old(state)@),
            wait::attached(final(state)@, final(self)@.event),
    {
        if !state.resume(&mut self.event) {
            state.park(&mut self.event, waker);
            return false;
        }
        if !self.is_locked() {
            self.lock(woken);
            return true;
        }
        state.park(&mut self.event, waker);
        false
    }
}

/// A value that one task at a time can get at.
pub struct AsyncMutex<T>(AsyncMutexInner<T>);

impl<T> View for AsyncMutex<T> {
    type V = MutexView<T>;

    closed spec fn view(&self) -> MutexView<T> {
        self.0@
    }
}

impl<T> AsyncMutex<T> {
    /// The event's own bookkeeping is in order.
    pub closed spec fn event_wf(&self) -> bool {
        self.0.event.wf()
    }

    /// The invariant of a mutex.
    pub open spec fn wf(&self) -> bool {
        self@.event.wf() && self.event_wf()
    }

    /// A mutex that nobody holds.
    pub fn new(value: T) -> (mutex: Self)
        ensures
            mutex.wf(),
            mutex@ == (MutexView {
                value,
                event: EventView { listeners: Seq::empty(), next_id: 0, open: true },
                locked: false,
            }),
    {
        AsyncMutex(AsyncMutexInner { value, event: Event::new(), locked: false })
    }

    /// The protected value.
    pub(crate) fn value_mut(&mut self) -> (value: &mut T)
        ensures
            *value == old(self)@.value,
            final(self)@ == old(self)@.written(*final(value)),
            old(self).wf() ==> final(self).wf(),
    {
        &mut self.0.value
    }

    /// The future that takes the lock.
    pub fn lock(&self) -> (future: LockFuture<T>)
        ensures
            future.waiter() is None,
    {
        LockFuture { state: WaitState::Idle, marker: PhantomData }
    }

    /// The future that takes the lock for a guard that shares the mutex.
    pub fn lock_rc(&self) -> (future: RcLockFuture<T>)
        ensures
            future.waiter() is None,
    {
        RcLockFuture { state: WaitState::Idle, marker: PhantomData }
    }
}

/// The right to get at the value of a mutex.
pub struct LockGuard<T> {
    marker: PhantomData<T>,
}

impl<T> LockGuard<T> {
    /// The protected value.
    pub fn deref<'a>(&self, mutex: &'a AsyncMutex<T>) -> (value: &'a T)
        ensures
            *value == mutex@.value,
    {
        &mutex.0.value
    }

    /// The protected value, to be changed.
    pub fn deref_mut<'a>(&mut self, mutex: &'a mut AsyncMutex<T>) -> (value: &'a mut T)
        ensures
            *value == old(mutex)@.value,
            final(mutex)@ == old(mutex)@.written(*final(value)),
            old(mutex).wf() ==> final(mutex).wf(),
    {
        &mut mutex.0.value
    }

    /// Gives the guard back, which unlocks the mutex.
    pub fn drop(self, mutex: &mut AsyncMutex<T>, woken: &mut Vec<Waker>)
        requires
            old(mutex).wf(),
        ensures
            final(mutex).wf(),
            final(mutex)@ == old(mutex)@.unlocked(),
            final(woken)@ == old(woken)@ + old(mutex)@.event.signaled_wakers(1),
    {
        mutex.0.unlock(woken);
    }
}

/// A task that wants the lock of a mutex.
pub struct LockFuture<T> {
    state: WaitState,
    marker: PhantomData<T>,
}

impl<T> LockFuture<T> {
    /// The listener that the future waits for the lock with.
    pub closed spec fn waiter(&self) -> Waiter {
        self.state@
    }

    /// Whether the lock can be polled for: there is a number if the task has to start to wait.
    pub fn can_poll(&self, mutex: &AsyncMutex<T>) -> (can: bool)
        requires
            mutex.wf(),
        ensures
            can == mutex@.pollable(self.waiter()),
    {
        mutex.0.can_poll(&self.state)
    }

    /// Takes the lock, or waits for it.
    pub fn poll(
        &mut self,
        mutex: &mut AsyncMutex<T>,
        waker: Waker,
        woken: &mut Vec<Waker>,
    ) -> (polled: Poll<LockGuard<T>>)
        requires
            old(mutex).wf(),
            old(mutex)@.pollable(old(self).waiter()),
        ensures
            final(mutex).wf(),
            polled is Ready == old(mutex)@.grants(old(self).waiter()),
            final(mutex)@ == old(mutex)@.polled(old(self).waiter(), waker),
            final(self).waiter() == old(mutex)@.polled_waiter(old(self).waiter()),
            final(woken)@ == old(woken)@ + old(mutex)@.polled_wakers(old(self).waiter()),
            wait::attached(final(self).waiter(), final(mutex)@.event),
    {
        if mutex.0.poll_lock(&mut self.state, waker, woken) {
            Poll::Ready(LockGuard { marker: PhantomData })
        } else {
            Poll::Pending
        }
    }

    /// Gives the future up. If it had been notified, another waiting task is notified in its
    /// place.
    pub fn drop(self, mutex: &mut AsyncMutex<T>, woken: &mut Vec<Waker>)
        requires
            old(mutex).wf(),
        ensures
            final(mutex).wf(),
            final(mutex)@ == old(mutex)@.given_up(self.waiter()),
            final(woken)@ == old(woken)@ + wait::abandoned_wakers(
                self.waiter(),
                old(mutex)@.event,
            ),
    {
        self.state.abandon(&mut mutex.0.event, woken);
    }
}

/// The right to get at the value of a mutex that the guard shares.
pub struct RcLockGuard<T> {
    marker: PhantomData<T>,
}

impl<T> RcLockGuard<T> {
    /// The protected value.
    pub fn deref<'a>(&self, mutex: &'a AsyncMutex<T>) -> (value: &'a T)
        ensures
            *value == mutex@.value,
    {
        &mutex.0.value
    }

    /// The protected value, to be changed.
    pub fn deref_mut<'a>(&mut self, mutex: &'a mut AsyncMutex<T>) -> (value: &'a mut T)
        ensures
            *value == old(mutex)@.value,
            final(mutex)@ == old(mutex)@.written(*final(value)),
            old(mutex).wf() ==> final(mutex).wf(),
    {
        &mut mutex.0.value
    }

    /// Gives the guard back, which unlocks the mutex.
    pub fn drop(self, mutex: &mut AsyncMutex<T>, woken: &mut Vec<Waker>)
        requires
            old(mutex).wf(),
        ensures
            final(mutex).wf(),
            final(mutex)@ == old(mutex)@.unlocked(),
            final(woken)@ == old(woken)@ + old(mutex)@.event.signaled_wakers(1),
    {
        mutex.0.unlock(woken);
    }
}

/// A task that wants the lock of a mutex that it shares.
pub struct RcLockFuture<T> {
    state: WaitState,
    marker: PhantomData<T>,
}

impl<T> RcLockFuture<T> {
    /// The listener that the future waits for the lock with.
    pub closed spec fn waiter(&self) -> Waiter {
        self.state@
    }

    /// Whether the lock can be polled for: there is a number if the task has to start to wait.
    pub fn can_poll(&self, mutex: &AsyncMutex<T>) -> (can: bool)
        requires
            mutex.wf(),
        ensures
            can == mutex@.pollable(self.waiter()),
    {
        mutex.0.can_poll(&self.state)
    }

    /// Takes the lock, or waits for it.
    pub fn poll(
        &mut self,
        mutex: &mut AsyncMutex<T>,
        waker: Waker,
        woken: &mut Vec<Waker>,
    ) -> (polled: Poll<RcLockGuard<T>>)
        requires
            old(mutex).wf(),
            old(mutex)@.pollable(old(self).waiter()),
        ensures
            final(mutex).wf(),
            polled is Ready == old(mutex)@.grants(old(self).waiter()),
            final(mutex)@ == old(mutex)@.polled(old(self).waiter(), waker),
            final(self).waiter() == old(mutex)@.polled_waiter(old(self).waiter()),
            final(woken)@ == old(woken)@ + old(mutex)@.polled_wakers(old(self).waiter()),
            wait::attached(final(self).waiter(), final(mutex)@.event),
    {
        if mutex.0.poll_lock(&mut self.state, waker, woken) {
            Poll::Ready(RcLockGuard { marker: PhantomData })
        } else {
            Poll::Pending
        }
    }

    /// Gives the future up. If it had been notified, another waiting task is notified in its
    /// place.
    pub fn drop(self, mutex: &mut AsyncMutex<T>, woken: &mut Vec<Waker>)
        requires
            old(mutex).wf(),
        ensures
            final(mutex).wf(),
            final(mutex)@ == old(mutex)@.given_up(self.waiter()),
            final(woken)@ == old(woken)@ + wait::abandoned_wakers(
                self.waiter(),
                old(mutex)@.event,
            ),
    {
        self.state.abandon(&mut mutex.0.event, woken);
    }
}

} // verus!
