//! A bounded queue with any number of senders and one receiver.
//!
//! The two sides share a [`State`]; the handles say what each side may do with it.
use core::marker::PhantomData;
use core::task::{Poll, Waker};
use std::collections::VecDeque;

use vstd::prelude::*;

use super::ChannelError;
use crate::event::{Event, EventView};
use crate::wait;
use crate::wait::{WaitState, Waiter};

verus! {

/// What the two sides of a channel share.
#[verifier::ext_equal]
pub struct StateView<T> {
    /// Notifies the receiver when data arrives or when all senders have gone away.
    pub receiver_event: EventView<()>,
    /// Notifies blocked senders when capacity is freed or the receiver goes away.
    pub sender_event: EventView<()>,
    /// The queued values, the oldest first.
    pub queue: Seq<T>,
    /// The number of queued values from which on senders must wait.
    pub max_queue_size: usize,
    /// The number of senders.
    pub senders: usize,
    /// Whether the receiver is still there.
    pub open: bool,
}

impl<T> StateView<T> {
    /// The events are in order, the queue never holds more than its bound, and nothing is
    /// queued for a receiver that is gone.
    pub open spec fn wf(self) -> bool {
        &&& self.receiver_event.wf()
        &&& self.sender_event.wf()
        &&& self.queue.len() <= self.max_queue_size
        &&& !self.open ==> self.queue.len() == 0
    }

    /// Whether a value can be queued now.
    pub open spec fn accepts(self) -> bool {
        self.open && self.queue.len() < self.max_queue_size
    }

    /// `self` with one more value; the receiver is notified when the queue was empty.
    pub open spec fn pushed(self, value: T) -> StateView<T> {
        StateView {
            queue: self.queue.push(value),
            receiver_event: if self.queue.len() == 0 {
                self.receiver_event.signaled(1)
            } else {
                self.receiver_event
            },
            ..self
        }
    }

    /// The wakers that queueing a value wakes.
    pub open spec fn pushed_wakers(self) -> Seq<Waker> {
        if self.queue.len() == 0 {
            self.receiver_event.signaled_wakers(1)
        } else {
            Seq::empty()
        }
    }

    /// `self` without its oldest value; one sender is notified when the queue was full.
    pub open spec fn popped(self) -> StateView<T> {
        StateView {
            queue: self.queue.drop_first(),
            sender_event: if self.queue.len() == self.max_queue_size {
                self.sender_event.signaled(1)
            } else {
                self.sender_event
            },
            ..self
        }
    }

    /// The wakers that taking the oldest value wakes.
    pub open spec fn popped_wakers(self) -> Seq<Waker> {
        if self.queue.len() == self.max_queue_size {
            self.sender_event.signaled_wakers(1)
        } else {
            Seq::empty()
        }
    }

    /// `self` with one more sender; they are counted while the receiver is there.
    pub open spec fn with_sender(self) -> StateView<T> {
        StateView {
            senders: if self.open {
                (self.senders + 1) as usize
            } else {
                self.senders
            },
            ..self
        }
    }

    /// `self` after a future that sends, and may be waiting with `waiter`, has been given up.
    pub open spec fn without_send(self, waiter: Waiter) -> StateView<T> {
        StateView { sender_event: wait::abandoned(waiter, self.sender_event), ..self }
    }

    /// `self` with one sender less; the receiver is notified when it was the last one.
    pub open spec fn without_sender(self) -> StateView<T> {
        StateView {
            senders: (self.senders - 1) as usize,
            receiver_event: if self.senders == 1 {
                self.receiver_event.signaled(usize::MAX)
            } else {
                self.receiver_event
            },
            ..self
        }
    }

    /// The wakers that losing a sender wakes.
    pub open spec fn without_sender_wakers(self) -> Seq<Waker> {
        if self.senders == 1 {
            self.receiver_event.signaled_wakers(usize::MAX)
        } else {
            Seq::empty()
        }
    }

    /// `self` after the receiver, which waits with `waiter`, has gone away: all waiting
    /// senders are notified and the queued values are dropped.
    pub open spec fn without_receiver(self, waiter: Waiter) -> StateView<T> {
        StateView {
            receiver_event: wait::abandoned(waiter, self.receiver_event.closed()),
            sender_event: self.sender_event.signaled(usize::MAX).closed(),
            queue: Seq::empty(),
            open: false,
            ..self
        }
    }

    /// The wakers that losing the receiver wakes.
    pub open spec fn without_receiver_wakers(self) -> Seq<Waker> {
        self.sender_event.signaled_wakers(usize::MAX) + crate::event::entries::all_wakers(
            self.receiver_event.listeners,
        )
    }

    /// What has to hold for polling a future that sends `value` and may be waiting for room
    /// with `waiter`: a listener that it waits with is registered; if there is room, there is
    /// still a value to send; and if it starts to wait, there is a free listener number.
    pub open spec fn sendable(self, waiter: Waiter, value: Option<T>) -> bool {
        &&& wait::attached(waiter, self.sender_event)
        &&& wait::ready(waiter, self.sender_event) && self.accepts() ==> value is Some
        &&& wait::ready(waiter, self.sender_event) && self.open && !self.accepts()
            ==> self.sender_event.next_id < usize::MAX
    }

    /// What polling a future that sends returns. A future that waits to be notified of room
    /// goes on waiting until it is; then it fails if the receiver is gone, sends if there is
    /// room, and waits again if there is none.
    pub open spec fn send_result(self, waiter: Waiter) -> Poll<Result<(), ChannelError>> {
        if !wait::ready(waiter, self.sender_event) {
            Poll::Pending
        } else if !self.open {
            Poll::Ready(Err(ChannelError))
        } else if self.accepts() {
            Poll::Ready(Ok(()))
        } else {
            Poll::Pending
        }
    }

    /// The shared state after polling a future that sends.
    pub open spec fn after_send(self, waiter: Waiter, value: Option<T>, waker: Waker) -> StateView<
        T,
    > {
        let released = StateView {
            sender_event: wait::released(waiter, self.sender_event),
            ..self
        };
        if !wait::ready(waiter, self.sender_event) {
            StateView { sender_event: wait::parked(waiter, self.sender_event, waker), ..self }
        } else if !self.open {
            released
        } else if self.accepts() {
            released.pushed(value->0)
        } else {
            StateView {
                sender_event: released.sender_event.with_listener(Some(waker)),
                ..self
            }
        }
    }

    /// The listener that a future that sends waits with after it has been polled.
    pub open spec fn send_waiter(self, waiter: Waiter) -> Waiter {
        if !wait::ready(waiter, self.sender_event) {
            waiter
        } else if self.open && !self.accepts() {
            Some(self.sender_event.next_id)
        } else {
            None
        }
    }

    /// The wakers that polling a future that sends wakes.
    pub open spec fn send_wakers(self, waiter: Waiter) -> Seq<Waker> {
        if wait::ready(waiter, self.sender_event) && self.accepts() {
            self.pushed_wakers()
        } else {
            Seq::empty()
        }
    }

    /// What has to hold for polling a receiver that may be waiting for data with `waiter`: a
    /// listener that it waits with is registered, and if it starts to wait, there is a free
    /// listener number.
    pub open spec fn receivable(self, waiter: Waiter) -> bool {
        &&& wait::attached(waiter, self.receiver_event)
        &&& wait::ready(waiter, self.receiver_event) && self.queue.len() == 0 && self.senders > 0
            ==> self.receiver_event.next_id < usize::MAX
    }

    /// What polling the receiver returns. A receiver that waits to be notified goes on waiting
    /// until it is; then it takes the oldest value if there is one, ends if all senders are
    /// gone, and waits again otherwise.
    pub open spec fn receive_result(self, waiter: Waiter) -> Poll<Option<T>> {
        if !wait::ready(waiter, self.receiver_event) {
            Poll::Pending
        } else if self.queue.len() > 0 {
            Poll::Ready(Some(self.queue.first()))
        } else if self.senders == 0 {
            Poll::Ready(None)
        } else {
            Poll::Pending
        }
    }

    /// The shared state after polling the receiver.
    pub open spec fn after_receive(self, waiter: Waiter, waker: Waker) -> StateView<T> {
        let released = StateView {
            receiver_event: wait::released(waiter, self.receiver_event),
            ..self
        };
        if !wait::ready(waiter, self.receiver_event) {
            StateView { receiver_event: wait::parked(waiter, self.receiver_event, waker), ..self }
        } else if self.queue.len() > 0 {
            released.popped()
        } else if self.senders == 0 {
            released
        } else {
            StateView {
                receiver_event: released.receiver_event.with_listener(Some(waker)),
                ..self
            }
        }
    }

    /// The listener that the receiver waits with after it has been polled.
    pub open spec fn receive_waiter(self, waiter: Waiter) -> Waiter {
        if !wait::ready(waiter, self.receiver_event) {
            waiter
        } else if self.queue.len() == 0 && self.senders > 0 {
            Some(self.receiver_event.next_id)
        } else {
            None
        }
    }

    /// The wakers that polling the receiver wakes.
    pub open spec fn receive_wakers(self, waiter: Waiter) -> Seq<Waker> {
        if wait::ready(waiter, self.receiver_event) && self.queue.len() > 0 {
            self.popped_wakers()
        } else {
            Seq::empty()
        }
    }
}

/// What the two sides of a channel share.
pub struct State<T> {
    // Receivers wait for data; senders wait for capacity. Keeping separate events avoids
    // waking the wrong side when the queue changes state.
    receiver_event: Event,
    sender_event: Event,
    // FIFO storage for queued values.
    queue: VecDeque<T>,
    // Upper bound for queued items before senders must wait.
    max_queue_size: usize,
    // Number of live sender handles.
    senders: usize,
    // Cleared when the receiver is dropped, so that sends fail cleanly.
    open: bool,
}

impl<T> View for State<T> {
    type V = StateView<T>;

    closed spec fn view(&self) -> StateView<T> {
        StateView {
            receiver_event: self.receiver_event@,
            sender_event: self.sender_event@,
            queue: self.queue@,
            max_queue_size: self.max_queue_size,
            senders: self.senders,
            open: self.open,
        }
    }
}

impl<T> State<T> {
    /// The events' own bookkeeping is in order.
    pub closed spec fn events_wf(&self) -> bool {
        self.receiver_event.wf() && self.sender_event.wf()
    }

    /// The invariant of a channel.
    pub open spec fn wf(&self) -> bool {
        self@.wf() && self.events_wf()
    }

    /// Whether the receiver is still there.
    pub fn is_open(&self) -> (open: bool)
        ensures
            open == self@.open,
    {
        self.open
    }

    /// Whether one more sender can be counted.
    pub fn can_clone(&self) -> (can: bool)
        ensures
            can == (self@.senders < usize::MAX),
    {
        self.senders < usize::MAX
    }

    /// Queues a value.
    fn push(&mut self, value: T, woken: &mut Vec<Waker>)
        requires
            old(self).wf(),
            old(self)@.accepts(),
        ensures
            final(self).wf(),
            final(self)@ == old(self)@.pushed(value),
            final(woken)@ == old(woken)@ + old(self)@.pushed_wakers(),
    {
        // Only wake the receiver when the queue transitions from empty to non-empty.
        let was_empty: bool = self.queue.len() == 0;
        self.queue.push_back(value);
        if was_empty {
            self.receiver_event.signal(1, woken);
        }
    }
}

/// A new channel for up to `max_queue_size` queued values, with one sender and its receiver.
pub fn channel<T>(max_queue_size: usize) -> (parts: (State<T>, Sender<T>, Receiver<T>))
    ensures
        parts.0.wf(),
        parts.0@ == (StateView::<T> {
            receiver_event: EventView { listeners: Seq::empty(), next_id: 0, open: true },
            sender_event: EventView { listeners: Seq::empty(), next_id: 0, open: true },
            queue: Seq::empty(),
            max_queue_size,
            senders: 1,
            open: true,
        }),
        parts.2.waiter() is None,
{
    let shared = State {
        receiver_event: Event::new(),
        sender_event: Event::new(),
        queue: VecDeque::new(),
        max_queue_size,
        senders: 1,
        open: true,
    };
    let sender = Sender { marker: PhantomData };
    let receiver = Receiver { state: WaitState::Idle, marker: PhantomData };
    (shared, sender, receiver)
}

/// A sender.
pub struct Sender<T> {
    marker: PhantomData<T>,
}

impl<T> Sender<T> {
    /// The future that sends `value` once there is room for it.
    pub fn send(&self, value: T) -> (send: Send<T>)
        ensures
            send.value() == Some(value),
            send.waiter() is None,
    {
        Send { state: WaitState::Idle, value: Some(value) }
    }

    /// Sends `value` if there is room for it, and gives it back otherwise.
    pub fn try_send(
        &self,
        shared: &mut State<T>,
        value: T,
        woken: &mut Vec<Waker>,
    ) -> (sent: Result<(), T>)
        requires
            old(shared).wf(),
        ensures
            final(shared).wf(),
            if old(shared)@.accepts() {
                &&& sent is Ok
                &&& final(shared)@ == old(shared)@.pushed(value)
                &&& final(woken)@ == old(woken)@ + old(shared)@.pushed_wakers()
            } else {
                &&& sent == Err::<(), T>(value)
                &&& final(shared)@ == old(shared)@
                &&& final(woken)@ == old(woken)@
            },
    {
        if shared.open && shared.queue.len() < shared.max_queue_size {
            shared.push(value, woken);
            Ok(())
        } else {
            Err(value)
        }
    }

    /// Whether nothing can come of sending any more.
    pub fn is_closed(&self, shared: &State<T>) -> (closed: bool)
        ensures
            closed == (shared@.open ==> shared@.senders == 0),
    {
        if shared.open {
            shared.senders == 0
        } else {
            true
        }
    }

    /// Gives the sender back. When it was the last one, the receiver is notified.
    pub fn drop(self, shared: &mut State<T>, woken: &mut Vec<Waker>)
        requires
            old(shared).wf(),
            old(shared)@.open ==> old(shared)@.senders > 0,
        ensures
            final(shared).wf(),
            if old(shared)@.open {
                &&& final(shared)@ == old(shared)@.without_sender()
                &&& final(woken)@ == old(woken)@ + old(shared)@.without_sender_wakers()
            } else {
                &&& final(shared)@ == old(shared)@
                &&& final(woken)@ == old(woken)@
            },
    {
        if shared.open {
            shared.senders = shared.senders - 1;
            if shared.senders == 0 {
                shared.receiver_event.signal(usize::MAX, woken);
            }
        }
    }

    /// One more sender for the same channel.
    pub fn clone(&self, shared: &mut State<T>) -> (sender: Sender<T>)
        requires
            old(shared).wf(),
            old(shared)@.open ==> old(shared)@.senders < usize::MAX,
        ensures
            final(shared).wf(),
            final(shared)@ == old(shared)@.with_sender(),
    {
        if shared.open {
            shared.senders = shared.senders + 1;
        }
        Sender { marker: PhantomData }
    }
}

/// A value on its way into the queue.
pub struct Send<T> {
    // Tracks whether this future is waiting for capacity or retrying the send.
    state: WaitState,
    // The value is moved into the queue once space is available.
    value: Option<T>,
}

impl<T> Send<T> {
    /// The value that is still to be sent.
    pub closed spec fn value(&self) -> Option<T> {
        self.value
    }

    /// The listener that the future waits for capacity with.
    pub closed spec fn waiter(&self) -> Waiter {
        self.state@
    }

    /// Whether the future can be polled: there is still a value to send if there is room for it,
    /// and a number if it has to start to wait.
    pub fn can_poll(&self, shared: &State<T>) -> (can: bool)
        requires
            shared.wf(),
        ensures
            can == shared@.sendable(self.waiter(), self.value()),
    {
        if !self.state.is_attached(&shared.sender_event) {
            false
        } else if !self.state.is_ready(&shared.sender_event) || !shared.open {
            true
        } else if shared.queue.len() < shared.max_queue_size {
            self.value.is_some()
        } else {
            shared.sender_event.can_listen()
        }
    }

    /// Sends the value if there is room; otherwise waits for room. Fails once the receiver
    /// is gone.
    pub fn poll(
        &mut self,
        shared: &mut State<T>,
        waker: Waker,
        woken: &mut Vec<Waker>,
    ) -> (polled: Poll<Result<(), ChannelError>>)
        requires
            old(shared).wf(),
            old(shared)@.sendable(old(self).waiter(), old(self).value()),
        ensures
            final(shared).wf(),
            polled == old(shared)@.send_result(old(self).waiter()),
            final(shared)@ == old(shared)@.after_send(
                old(self).waiter(),
                old(self).value(),
                waker,
            ),
            final(self).waiter() == old(shared)@.send_waiter(old(self).waiter()),
            final(self).value() == (if polled == Poll::Ready(Ok::<(), ChannelError>(())) {
                None
            } else {
                old(self).value()
            }),
            final(woken)@ == old(woken)@ + old(shared)@.send_wakers(old(self).waiter()),
            wait::attached(final(self).waiter(), final(shared)@.sender_event),
    {
        if !self.state.resume(&mut shared.sender_event) {
            self.state.park(&mut shared.sender_event, waker);
            return Poll::Pending;
        }
        if !shared.open {
            return Poll::Ready(Err(ChannelError));
        }
        if shared.queue.len() < shared.max_queue_size {
            if let Some(value) = self.value.take() {
                shared.push(value, woken);
            }
            return Poll::Ready(Ok(()));
        }
        self.state.park(&mut shared.sender_event, waker);
        Poll::Pending
    }

    /// Gives the future up. If it had been notified of room in the queue, another waiting
    /// sender is notified in its place. A value that has not been sent is handed back, to be
    /// dropped.
    pub fn drop(self, shared: &mut State<T>, woken: &mut Vec<Waker>) -> (unsent: Option<T>)
        requires
            old(shared).wf(),
        ensures
            final(shared).wf(),
            final(shared)@ == old(shared)@.without_send(self.waiter()),
            final(woken)@ == old(woken)@ + wait::abandoned_wakers(
                self.waiter(),
                old(shared)@.sender_event,
            ),
            unsent == self.value(),
    {
        self.state.abandon(&mut shared.sender_event, woken);
        self.value
    }
}

/// The receiver.
pub struct Receiver<T> {
    // Tracks whether this stream is waiting for data or ready to read.
    state: WaitState,
    marker: PhantomData<T>,
}

impl<T> Receiver<T> {
    /// The listener that the receiver waits for data with.
    pub closed spec fn waiter(&self) -> Waiter {
        self.state@
    }

    /// Whether nothing is queued.
    pub fn is_empty(&self, shared: &State<T>) -> (empty: bool)
        ensures
            empty == (shared@.queue.len() == 0),
    {
        shared.queue.len() == 0
    }

    /// Whether senders must wait.
    pub fn is_full(&self, shared: &State<T>) -> (full: bool)
        ensures
            full == (shared@.queue.len() >= shared@.max_queue_size),
    {
        shared.queue.len() >= shared.max_queue_size
    }

    /// Whether all senders are gone.
    pub fn is_closed(&self, shared: &State<T>) -> (closed: bool)
        ensures
            closed == (shared@.senders == 0),
    {
        shared.senders == 0
    }

    /// Whether the receiver can be polled: there is a number if it has to start to wait.
    pub fn can_poll(&self, shared: &State<T>) -> (can: bool)
        requires
            shared.wf(),
        ensures
            can == shared@.receivable(self.waiter()),
    {
        if !self.state.is_attached(&shared.receiver_event) {
            false
        } else if self.state.is_ready(&shared.receiver_event) && shared.queue.len() == 0
            && shared.senders > 0 {
            shared.receiver_event.can_listen()
        } else {
            true
        }
    }

    /// Takes the oldest value, or waits for one. Ends once nothing is queued and all senders
    /// are gone.
    pub fn poll_next(
        &mut self,
        shared: &mut State<T>,
        waker: Waker,
        woken: &mut Vec<Waker>,
    ) -> (polled: Poll<Option<T>>)
        requires
            old(shared).wf(),
            old(shared)@.receivable(old(self).waiter()),
        ensures
            final(shared).wf(),
            polled == old(shared)@.receive_result(old(self).waiter()),
            final(shared)@ == old(shared)@.after_receive(old(self).waiter(), waker),
            final(self).waiter() == old(shared)@.receive_waiter(old(self).waiter()),
            final(woken)@ == old(woken)@ + old(shared)@.receive_wakers(old(self).waiter()),
            wait::attached(final(self).waiter(), final(shared)@.receiver_event),
    {
        if !self.state.resume(&mut shared.receiver_event) {
            self.state.park(&mut shared.receiver_event, waker);
            return Poll::Pending;
        }
        // Only wake one blocked sender when a full queue gains a free slot.
        let was_full: bool = shared.queue.len() == shared.max_queue_size;
        if let Some(value) = shared.queue.pop_front() {
            if was_full {
                shared.sender_event.signal(1, woken);
            }
            return Poll::Ready(Some(value));
        }
        if shared.senders == 0 {
            return Poll::Ready(None);
        }
        self.state.park(&mut shared.receiver_event, waker);
        Poll::Pending
    }

    /// Gives the receiver back, which closes the channel: all waiting senders are notified, and
    /// what is queued is handed back, to be dropped.
    pub fn drop(self, shared: &mut State<T>, woken: &mut Vec<Waker>) -> (unreceived: VecDeque<T>)
        requires
            old(shared).wf(),
        ensures
            final(shared).wf(),
            final(shared)@ == old(shared)@.without_receiver(self.waiter()),
            final(woken)@ == old(woken)@ + old(shared)@.without_receiver_wakers(),
            unreceived@ == old(shared)@.queue,
    {
        shared.sender_event.signal(usize::MAX, woken);
        shared.receiver_event.close(woken);
        shared.sender_event.close(woken);
        let mut unreceived = VecDeque::new();
        core::mem::swap(&mut shared.queue, &mut unreceived);
        shared.open = false;
        self.state.abandon(&mut shared.receiver_event, woken);
        proof {
            crate::event::lemma_signal_all(old(shared)@.sender_event);
            if let Some(id) = self.waiter() {
                crate::event::lemma_closed_dropped(old(shared)@.receiver_event, id);
            }
        }
        unreceived
    }
}

} // verus!
