//! A mutex that is polled for its lock, and a sink behind such a mutex.
use core::task::{Poll, Waker};

use vstd::prelude::*;

pub mod exact;

use crate::event::EventView;
use crate::lock::mutex::MutexView;
use crate::lock::{AsyncMutex, RcLockFuture, RcLockGuard};
use crate::wait;
use crate::wait::Waiter;

verus! {

enum AsyncPollMutexState<T> {
    Unlocking { future: RcLockFuture<T> },
    Locked,
}

/// A mutex that remembers the future with which its lock is being polled for.
pub struct AsyncPollMutex<T> {
    value: AsyncMutex<T>,
    state: AsyncPollMutexState<T>,
}

impl<T> AsyncPollMutex<T> {
    /// The mutex itself.
    pub closed spec fn mutex(&self) -> AsyncMutex<T> {
        self.value
    }

    /// The listener with which the lock is being waited for.
    pub closed spec fn waiter(&self) -> Waiter {
        match self.state {
            AsyncPollMutexState::Unlocking { future } => future.waiter(),
            AsyncPollMutexState::Locked => None,
        }
    }

    /// What the mutex holds.
    pub open spec fn view(&self) -> MutexView<T> {
        self.mutex()@
    }

    /// The invariant of the mutex.
    pub open spec fn wf(&self) -> bool {
        self.mutex().wf()
    }

    /// A mutex that nobody holds or waits for.
    pub fn new(value: T) -> (poll_mutex: Self)
        ensures
            poll_mutex.wf(),
            poll_mutex@ == (MutexView {
                value,
                event: EventView { listeners: Seq::empty(), next_id: 0, open: true },
                locked: false,
            }),
            poll_mutex.waiter() is None,
    {
        AsyncPollMutex { value: AsyncMutex::new(value), state: AsyncPollMutexState::Locked }
    }

    /// The future that takes the lock.
    pub fn lock(&self) -> (future: RcLockFuture<T>)
        ensures
            future.waiter() is None,
    {
        self.value.lock_rc()
    }

    /// Whether the lock can be polled for: there is a number if it has to be waited for.
    pub fn can_poll(&self) -> (can: bool)
        requires
            self.wf(),
        ensures
            can == self@.pollable(self.waiter()),
    {
        match &self.state {
            AsyncPollMutexState::Unlocking { future } => future.can_poll(&self.value),
            AsyncPollMutexState::Locked => self.value.lock_rc().can_poll(&self.value),
        }
    }

    /// Takes the lock, or waits for it until it is polled again.
    pub fn poll_lock(
        &mut self,
        waker: Waker,
        woken: &mut Vec<Waker>,
    ) -> (polled: Poll<RcLockGuard<T>>)
        requires
            old(self).wf(),
            old(self)@.pollable(old(self).waiter()),
        ensures
            final(self).wf(),
            polled is Ready == old(self)@.grants(old(self).waiter()),
            final(self)@ == old(self)@.polled(old(self).waiter(), waker),
            final(self).waiter() == old(self)@.polled_waiter(old(self).waiter()),
            final(woken)@ == old(woken)@ + old(self)@.polled_wakers(old(self).waiter()),
            wait::attached(final(self).waiter(), final(self)@.event),
    {
        let mut state = AsyncPollMutexState::Locked;
        core::mem::swap(&mut self.state, &mut state);
        let mut future = match state {
            AsyncPollMutexState::Unlocking { future } => future,
            AsyncPollMutexState::Locked => self.value.lock_rc(),
        };
        match future.poll(&mut self.value, waker, woken) {
            Poll::Ready(guard) => Poll::Ready(guard),
            Poll::Pending => {
                self.state = AsyncPollMutexState::Unlocking { future };
                Poll::Pending
            },
        }
    }

    /// Gives up waiting for the lock. If it had been notified, another waiting task is notified
    /// in its place.
    pub fn stop(&mut self, woken: &mut Vec<Waker>)
        requires
            old(self).wf(),
        ensures
            final(self).wf(),
            final(self).waiter() is None,
            final(self)@ == old(self)@.given_up(old(self).waiter()),
            final(woken)@ == old(woken)@ + wait::abandoned_wakers(
                old(self).waiter(),
                old(self)@.event,
            ),
    {
        let mut state = AsyncPollMutexState::Locked;
        core::mem::swap(&mut self.state, &mut state);
        if let AsyncPollMutexState::Unlocking { future } = state {
            future.drop(&mut self.value, woken);
        }
    }

    /// The protected value.
    fn value_mut(&mut self) -> (value: &mut T)
        ensures
            *value == old(self)@.value,
            final(self)@ == old(self)@.written(*final(value)),
            old(self).wf() ==> final(self).wf(),
            final(self).waiter() == old(self).waiter(),
    {
        self.value.value_mut()
    }

    /// The mutex itself, to be read through a guard.
    pub fn get(&self) -> (mutex: &AsyncMutex<T>)
        ensures
            *mutex == self.mutex(),
    {
        &self.value
    }

    /// The mutex itself, for a guard or a future that belongs to it.
    pub fn get_mut(&mut self) -> (mutex: &mut AsyncMutex<T>)
        ensures
            *mutex == old(self).mutex(),
            final(self).mutex() == *final(mutex),
            final(self).waiter() == old(self).waiter(),
    {
        &mut self.value
    }
}

/// What is asked of a [`LockedSink`].
#[derive(Debug, Clone, Copy, PartialEq, Eq, Structural)]
pub enum SinkOp {
    /// To become ready for one more item.
    Ready,
    /// To pass all items on.
    Flush,
    /// To pass all items on and to end.
    Close,
}

/// What a [`LockedSink`] has to do with the sink behind it.
#[derive(Debug, PartialEq, Eq)]
pub enum SinkCall<M> {
    /// To poll whether it is ready for an item.
    PollReady,
    /// To send it this item.
    StartSend(M),
    /// To poll it for passing all items on.
    PollFlush,
    /// To poll it for ending.
    PollClose,
}

/// How polling a [`LockedSink`] goes on.
#[derive(Debug, PartialEq, Eq)]
#[verifier::reject_recursive_types(E)]
pub enum SinkStep<M, E> {
    /// With a call of the sink behind it, whose answer is to be given to
    /// [`LockedSink::answer`].
    Call(SinkCall<M>),
    /// Not at all: this is the result.
    Return(Poll<Result<(), E>>),
}

/// Which call of the sink behind a [`LockedSink`] is under way, and for what. While a call is
/// under way, the lock is held.
#[derive(Debug, Clone, Copy, PartialEq, Eq, Structural)]
pub enum SinkStage {
    /// None.
    Idle,
    /// Polling whether it is ready for the item in the slot.
    Readying(SinkOp),
    /// Sending it the item that was in the slot.
    Sending(SinkOp),
    /// Polling it for what was asked.
    Finishing,
}

enum Stage<T> {
    Idle,
    Readying { op: SinkOp, guard: RcLockGuard<T> },
    Sending { op: SinkOp, guard: RcLockGuard<T> },
    Finishing { guard: RcLockGuard<T> },
}

/// A sink behind a mutex, with a slot for one item that waits to be passed on.
pub struct LockedSink<T, M> {
    lock: AsyncPollMutex<T>,
    slot: Option<M>,
    stage: Stage<T>,
}

/// What a [`LockedSink`] holds.
#[verifier::ext_equal]
pub struct SinkView<T, M> {
    /// The mutex around the sink.
    pub mutex: MutexView<T>,
    /// The listener with which the lock is being waited for.
    pub waiter: Waiter,
    /// The item that waits to be passed on.
    pub slot: Option<M>,
    /// Which call of the sink is under way.
    pub stage: SinkStage,
}

/// The call that does what was asked once no item waits any more.
pub open spec fn finishing_call<M>(op: SinkOp) -> SinkCall<M> {
    if op == SinkOp::Close {
        SinkCall::PollClose
    } else {
        SinkCall::PollFlush
    }
}

impl<T, M> SinkView<T, M> {
    /// What has to hold for beginning to poll: no other poll is under way, and the lock can be
    /// polled for if that is needed.
    pub open spec fn pollable(self, op: SinkOp) -> bool {
        &&& self.stage == SinkStage::Idle
        &&& !self.is_ready(op) ==> self.mutex.pollable(self.waiter)
    }

    /// Whether becoming ready needs nothing: no item waits.
    pub open spec fn is_ready(self, op: SinkOp) -> bool {
        op == SinkOp::Ready && self.slot is None
    }

    /// How polling begins: an item that waits has to be passed on first.
    pub open spec fn first_step<E>(self, op: SinkOp) -> SinkStep<M, E> {
        if self.is_ready(op) {
            SinkStep::Return(Poll::Ready(Ok(())))
        } else if !self.mutex.grants(self.waiter) {
            SinkStep::Return(Poll::Pending)
        } else if self.slot is Some {
            SinkStep::Call(SinkCall::PollReady)
        } else {
            SinkStep::Call(finishing_call(op))
        }
    }

    /// `self` after polling has begun.
    pub open spec fn begun(self, op: SinkOp, waker: Waker) -> SinkView<T, M> {
        if self.is_ready(op) {
            self
        } else {
            SinkView {
                mutex: self.mutex.polled(self.waiter, waker),
                waiter: self.mutex.polled_waiter(self.waiter),
                stage: if !self.mutex.grants(self.waiter) {
                    SinkStage::Idle
                } else if self.slot is Some {
                    SinkStage::Readying(op)
                } else {
                    SinkStage::Finishing
                },
                ..self
            }
        }
    }

    /// The wakers that beginning to poll wakes.
    pub open spec fn begun_wakers(self, op: SinkOp) -> Seq<Waker> {
        if self.is_ready(op) {
            Seq::empty()
        } else {
            self.mutex.polled_wakers(self.waiter)
        }
    }

    /// How polling goes on with the answer of the sink behind: an item is sent once the sink
    /// is ready for it, what was asked is done once it is sent, and everything else is the
    /// result.
    pub open spec fn next_step<E>(self, answer: Poll<Result<(), E>>) -> SinkStep<M, E> {
        if !(answer matches Poll::Ready(Ok(_))) {
            SinkStep::Return(answer)
        } else {
            match self.stage {
                SinkStage::Readying(_) => SinkStep::Call(SinkCall::StartSend(self.slot->0)),
                SinkStage::Sending(op) if op != SinkOp::Ready => SinkStep::Call(finishing_call(op)),
                _ => SinkStep::Return(answer),
            }
        }
    }

    /// `self` after polling has gone on with the answer of the sink behind. The lock is given
    /// back together with the result.
    pub open spec fn continued<E>(self, answer: Poll<Result<(), E>>) -> SinkView<T, M> {
        if self.next_step(answer) is Return {
            SinkView { mutex: self.mutex.unlocked(), stage: SinkStage::Idle, ..self }
        } else {
            match self.stage {
                SinkStage::Readying(op) => SinkView {
                    slot: None,
                    stage: SinkStage::Sending(op),
                    ..self
                },
                _ => SinkView { stage: SinkStage::Finishing, ..self },
            }
        }
    }

    /// The wakers that going on wakes.
    pub open spec fn continued_wakers<E>(self, answer: Poll<Result<(), E>>) -> Seq<Waker> {
        if self.next_step(answer) is Return {
            self.mutex.event.signaled_wakers(1)
        } else {
            Seq::empty()
        }
    }
}

impl<T, M> View for LockedSink<T, M> {
    type V = SinkView<T, M>;

    closed spec fn view(&self) -> SinkView<T, M> {
        SinkView {
            mutex: self.lock@,
            waiter: self.lock.waiter(),
            slot: self.slot,
            stage: match self.stage {
                Stage::Idle => SinkStage::Idle,
                Stage::Readying { op, .. } => SinkStage::Readying(op),
                Stage::Sending { op, .. } => SinkStage::Sending(op),
                Stage::Finishing { .. } => SinkStage::Finishing,
            },
        }
    }
}

impl<T, M> LockedSink<T, M> {
    /// The mutex's own bookkeeping is in order.
    pub closed spec fn lock_wf(&self) -> bool {
        self.lock.wf()
    }

    /// The invariant of a sink behind a mutex: there is an item to send while the sink is asked
    /// whether it is ready for one.
    pub open spec fn wf(&self) -> bool {
        &&& self.lock_wf()
        &&& self@.mutex.event.wf()
        &&& self@.stage is Readying ==> self@.slot is Some
    }

    /// A sink behind a mutex, with nothing to pass on.
    pub fn new(value: T) -> (sink: Self)
        ensures
            sink.wf(),
            sink@ == (SinkView::<T, M> {
                mutex: MutexView {
                    value,
                    event: EventView { listeners: Seq::empty(), next_id: 0, open: true },
                    locked: false,
                },
                waiter: None,
                slot: None,
                stage: SinkStage::Idle,
            }),
    {
        LockedSink { lock: AsyncPollMutex::new(value), slot: None, stage: Stage::Idle }
    }

    /// The future that takes the lock around the sink.
    pub fn lock(&self) -> (future: RcLockFuture<T>)
        ensures
            future.waiter() is None,
    {
        self.lock.lock()
    }

    /// Whether the lock around the sink can be polled for: there is a number if it has to be waited
    /// for.
    pub fn can_lock(&self) -> (can: bool)
        requires
            self.wf(),
        ensures
            can == self@.mutex.pollable(self@.waiter),
    {
        self.lock.can_poll()
    }

    /// Whether polling for `op` can begin.
    pub fn can_begin(&self, op: SinkOp) -> (can: bool)
        requires
            self.wf(),
        ensures
            can == self@.pollable(op),
    {
        match self.stage {
            Stage::Idle => {
                let ready: bool = if let SinkOp::Ready = op {
                    self.slot.is_none()
                } else {
                    false
                };
                ready || self.lock.can_poll()
            },
            _ => false,
        }
    }

    /// Takes the lock around the sink, or waits for it.
    pub fn poll_lock(
        &mut self,
        waker: Waker,
        woken: &mut Vec<Waker>,
    ) -> (polled: Poll<RcLockGuard<T>>)
        requires
            old(self).wf(),
            old(self)@.mutex.pollable(old(self)@.waiter),
        ensures
            final(self).wf(),
            polled is Ready == old(self)@.mutex.grants(old(self)@.waiter),
            final(self)@ == (SinkView {
                mutex: old(self)@.mutex.polled(old(self)@.waiter, waker),
                waiter: old(self)@.mutex.polled_waiter(old(self)@.waiter),
                ..old(self)@
            }),
            final(woken)@ == old(woken)@ + old(self)@.mutex.polled_wakers(old(self)@.waiter),
    {
        self.lock.poll_lock(waker, woken)
    }

    /// Gives up waiting for the lock around the sink.
    pub fn stop(&mut self, woken: &mut Vec<Waker>)
        requires
            old(self).wf(),
        ensures
            final(self).wf(),
            final(self)@ == (SinkView {
                mutex: old(self)@.mutex.given_up(old(self)@.waiter),
                waiter: None,
                ..old(self)@
            }),
            final(woken)@ == old(woken)@ + wait::abandoned_wakers(
                old(self)@.waiter,
                old(self)@.mutex.event,
            ),
    {
        self.lock.stop(woken);
    }

    /// The mutex around the sink, for a guard or a future that belongs to it.
    pub fn get_mut(&mut self) -> (mutex: &mut AsyncMutex<T>)
        requires
            old(self).wf(),
        ensures
            mutex.wf(),
            mutex@ == old(self)@.mutex,
            final(mutex).wf() ==> final(self).wf(),
            final(self)@ == (SinkView { mutex: final(mutex)@, ..old(self)@ }),
    {
        self.lock.get_mut()
    }

    /// The sink behind the mutex, for the call that is under way.
    pub fn inner(&mut self) -> (sink: &mut T)
        requires
            old(self).wf(),
            old(self)@.stage != SinkStage::Idle,
        ensures
            *sink == old(self)@.mutex.value,
            final(self).wf(),
            final(self)@ == (SinkView {
                mutex: old(self)@.mutex.written(*final(sink)),
                ..old(self)@
            }),
    {
        self.lock.value_mut()
    }

    /// Puts an item into the slot. What was in it is dropped.
    pub fn start_send<E>(&mut self, item: M) -> (sent: Result<(), E>)
        requires
            old(self).wf(),
        ensures
            final(self).wf(),
            sent is Ok,
            final(self)@ == (SinkView { slot: Some(item), ..old(self)@ }),
    {
        self.slot = Some(item);
        Ok(())
    }

    /// Begins to poll for `op`.
    pub fn begin<E>(
        &mut self,
        op: SinkOp,
        waker: Waker,
        woken: &mut Vec<Waker>,
    ) -> (step: SinkStep<M, E>)
        requires
            old(self).wf(),
            old(self)@.pollable(op),
        ensures
            final(self).wf(),
            step == old(self)@.first_step::<E>(op),
            final(self)@ == old(self)@.begun(op, waker),
            final(woken)@ == old(woken)@ + old(self)@.begun_wakers(op),
    {
        if let SinkOp::Ready = op {
            if self.slot.is_none() {
                return SinkStep::Return(Poll::Ready(Ok(())));
            }
        }
        match self.lock.poll_lock(waker, woken) {
            Poll::Ready(guard) => self.flush_slot(op, guard),
            Poll::Pending => SinkStep::Return(Poll::Pending),
        }
    }

    /// Passes on the item in the slot first, if there is one.
    fn flush_slot<E>(&mut self, op: SinkOp, guard: RcLockGuard<T>) -> (step: SinkStep<M, E>)
        requires
            old(self).wf(),
            old(self)@.stage == SinkStage::Idle,
        ensures
            final(self).wf(),
            step == (if old(self)@.slot is Some {
                SinkStep::<M, E>::Call(SinkCall::PollReady)
            } else {
                SinkStep::<M, E>::Call(finishing_call(op))
            }),
            final(self)@ == (SinkView {
                stage: if old(self)@.slot is Some {
                    SinkStage::Readying(op)
                } else {
                    SinkStage::Finishing
                },
                ..old(self)@
            }),
    {
        if self.slot.is_some() {
            self.stage = Stage::Readying { op, guard };
            SinkStep::Call(SinkCall::PollReady)
        } else {
            self.finish(op, guard)
        }
    }

    /// Does what was asked.
    fn finish<E>(&mut self, op: SinkOp, guard: RcLockGuard<T>) -> (step: SinkStep<M, E>)
        requires
            old(self).wf(),
        ensures
            final(self).wf(),
            step == SinkStep::<M, E>::Call(finishing_call(op)),
            final(self)@ == (SinkView { stage: SinkStage::Finishing, ..old(self)@ }),
    {
        self.stage = Stage::Finishing { guard };
        match op {
            SinkOp::Close => SinkStep::Call(SinkCall::PollClose),
            _ => SinkStep::Call(SinkCall::PollFlush),
        }
    }

    /// Goes on with the answer of the sink to the call that was asked for.
    pub fn answer<E>(&mut self, answer: Poll<Result<(), E>>, woken: &mut Vec<Waker>) -> (step:
        SinkStep<M, E>)
        requires
            old(self).wf(),
            old(self)@.stage != SinkStage::Idle,
        ensures
            final(self).wf(),
            step == old(self)@.next_step(answer),
            final(self)@ == old(self)@.continued(answer),
            final(woken)@ == old(woken)@ + old(self)@.continued_wakers(answer),
    {
        let mut stage = Stage::Idle;
        core::mem::swap(&mut self.stage, &mut stage);
        let granted: bool = if let Poll::Ready(Ok(_)) = &answer {
            true
        } else {
            false
        };
        match stage {
            Stage::Idle => SinkStep::Return(answer),
            Stage::Readying { op, guard } => match (granted, self.slot.take()) {
                (true, Some(item)) => {
                    self.stage = Stage::Sending { op, guard };
                    SinkStep::Call(SinkCall::StartSend(item))
                },
                (_, slot) => {
                    self.slot = slot;
                    guard.drop(self.lock.get_mut(), woken);
                    SinkStep::Return(answer)
                },
            },
            Stage::Sending { op, guard } => {
                let ready_only: bool = if let SinkOp::Ready = op {
                    true
                } else {
                    false
                };
                if granted && !ready_only {
                    self.finish(op, guard)
                } else {
                    guard.drop(self.lock.get_mut(), woken);
                    SinkStep::Return(answer)
                }
            },
            Stage::Finishing { guard } => {
                guard.drop(self.lock.get_mut(), woken);
                SinkStep::Return(answer)
            },
        }
    }
}

/// While an item waits, it is what a sink that is being polled sees first: it is asked whether it
/// is ready, then sent the item, and only then asked for what was wanted. The item is sent once.
pub proof fn law_item_goes_first<T, M, E>(sink: SinkView<T, M>, op: SinkOp, item: M, waker: Waker)
    requires
        sink.slot == Some(item),
        sink.mutex.grants(sink.waiter),
    ensures
        ({
            let fine = Poll::Ready(Ok::<(), E>(()));
            let asked = sink.begun(op, waker);
            let sent = asked.continued(fine);
            &&& sink.first_step::<E>(op) == SinkStep::<M, E>::Call(SinkCall::PollReady)
            &&& asked.next_step(fine) == SinkStep::<M, E>::Call(SinkCall::StartSend(item))
            &&& sent.slot is None
            &&& sent.next_step(fine) == (if op == SinkOp::Ready {
                SinkStep::<M, E>::Return(fine)
            } else {
                SinkStep::<M, E>::Call(finishing_call(op))
            })
        }),
{
}

/// A result always comes with the lock given back, and nothing is passed on without the lock.
pub proof fn law_sink_lock<T, M, E>(
    sink: SinkView<T, M>,
    op: SinkOp,
    waker: Waker,
    answer: Poll<Result<(), E>>,
)
    ensures
        sink.next_step(answer) is Return ==> !sink.continued(answer).mutex.locked
            && sink.continued(answer).stage == SinkStage::Idle,
        sink.first_step::<E>(op) is Call ==> sink.begun(op, waker).mutex.locked && sink.begun(
            op,
            waker,
        ).stage != SinkStage::Idle,
        sink.next_step(answer) is Call ==> sink.continued(answer).mutex == sink.mutex
            && sink.continued(answer).stage != SinkStage::Idle,
{
}

/// An item that the sink was not ready for stays in the slot.
pub proof fn law_item_stays<T, M, E>(sink: SinkView<T, M>, op: SinkOp, answer: Poll<Result<(), E>>)
    requires
        sink.stage == SinkStage::Readying(op),
        !(answer matches Poll::Ready(Ok(_))),
    ensures
        sink.continued(answer).slot == sink.slot,
        sink.next_step(answer) == SinkStep::<M, E>::Return(answer),
{
}

} // verus!
