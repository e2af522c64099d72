//! A channel for one value.
//!
//! The two sides share a [`State`]; the handles say what each side may do with it.
use core::marker::PhantomData;
use core::task::{Poll, Waker};

use vstd::prelude::*;

use super::ChannelError;
use crate::event::{Event, EventListener, EventView};

verus! {

/// How far a channel has come.
#[derive(Debug, Clone, Copy, PartialEq, Eq, Structural)]
pub enum ChannelState {
    /// No value is there.
    Empty,
    /// The sender went away without sending.
    SenderClosed,
    /// The receiver went away, or was closed, before a value was sent.
    ReceiverClosed,
    /// A value has been sent and not been received yet.
    Full,
}

/// What the two sides of a channel share.
#[verifier::ext_equal]
pub struct StateView<T> {
    /// The value that has been sent and not been received yet.
    pub value: Option<T>,
    /// How far the channel has come.
    pub state: ChannelState,
    /// Notifies the receiver.
    pub event: EventView<()>,
}

impl<T> StateView<T> {
    /// There is a value exactly when the channel is full.
    pub open spec fn wf(self) -> bool {
        &&& self.event.wf()
        &&& self.value is Some <==> self.state == ChannelState::Full
    }

    /// `self` after the sender, having notified the receiver if it closes an empty channel or
    /// fills it, has gone away.
    pub open spec fn without_sender(self, value: Option<T>) -> StateView<T> {
        if self.state == ChannelState::Empty {
            StateView {
                value,
                state: if value is Some {
                    ChannelState::Full
                } else {
                    ChannelState::SenderClosed
                },
                event: self.event.signaled(1).closed(),
            }
        } else {
            StateView { event: self.event.closed(), ..self }
        }
    }

    /// The wakers that losing the sender wakes.
    pub open spec fn without_sender_wakers(self) -> Seq<Waker> {
        if self.state == ChannelState::Empty {
            self.event.signaled_wakers(1) + crate::event::entries::all_wakers(
                self.event.signaled(1).listeners,
            )
        } else {
            crate::event::entries::all_wakers(self.event.listeners)
        }
    }

    /// `self` after the receiver has declared that it does not want a value any more.
    pub open spec fn receiver_closed(self) -> StateView<T> {
        if self.state == ChannelState::Empty {
            StateView { state: ChannelState::ReceiverClosed, value: None, ..self }
        } else {
            self
        }
    }

    /// `self` after the value has been received.
    pub open spec fn received(self) -> StateView<T> {
        StateView { state: ChannelState::Empty, value: None, ..self }
    }
}

/// What the two sides of a channel share.
pub struct State<T> {
    value: Option<T>,
    state: ChannelState,
    event: Event,
}

impl<T> View for State<T> {
    type V = StateView<T>;

    closed spec fn view(&self) -> StateView<T> {
        StateView { value: self.value, state: self.state, event: self.event@ }
    }
}

impl<T> State<T> {
    /// How far the channel has come.
    pub fn state(&self) -> (state: ChannelState)
        ensures
            state == self@.state,
    {
        self.state
    }

    /// The event's own bookkeeping is in order.
    pub closed spec fn event_wf(&self) -> bool {
        self.event.wf()
    }

    /// The invariant of a channel.
    pub open spec fn wf(&self) -> bool {
        self@.wf() && self.event_wf()
    }
}

/// A new channel with its sender and its receiver.
pub fn channel<T>() -> (parts: (State<T>, Sender<T>, Receiver<T>))
    ensures
        parts.0.wf(),
        parts.0@ == (StateView::<T> {
            value: None,
            state: ChannelState::Empty,
            event: (EventView { listeners: Seq::empty(), next_id: 0, open: true }).with_listener(
                None,
            ),
        }),
        parts.2.id() == 0,
        parts.0@.event.has(parts.2.id()),
{
    let mut event = Event::new();
    let listener = event.listen();
    proof {
        crate::event::lemma_position(event@, 0);
    }
    let shared = State { value: None, state: ChannelState::Empty, event };
    (shared, Sender { marker: PhantomData }, Receiver { listener, marker: PhantomData })
}

/// The sender.
pub struct Sender<T> {
    marker: PhantomData<T>,
}

impl<T> Sender<T> {
    /// Sends the value, unless the receiver is gone.
    pub fn send(
        self,
        shared: &mut State<T>,
        value: T,
        woken: &mut Vec<Waker>,
    ) -> (sent: Result<(), ChannelError>)
        requires
            old(shared).wf(),
            old(shared)@.state == ChannelState::Empty || old(shared)@.state
                == ChannelState::ReceiverClosed,
        ensures
            final(shared).wf(),
            sent is Ok <==> old(shared)@.state == ChannelState::Empty,
            final(shared)@ == old(shared)@.without_sender(Some(value)),
            final(woken)@ == old(woken)@ + old(shared)@.without_sender_wakers(),
    {
        let sent = match shared.state {
            ChannelState::Empty => {
                shared.value = Some(value);
                shared.state = ChannelState::Full;
                shared.event.signal(1, woken);
                Ok(())
            },
            _ => Err(ChannelError),
        };
        self.drop(shared, woken);
        sent
    }

    /// Gives the sender back. If nothing has been sent, the receiver is notified.
    pub fn drop(self, shared: &mut State<T>, woken: &mut Vec<Waker>)
        requires
            old(shared).wf(),
        ensures
            final(shared).wf(),
            final(shared)@ == old(shared)@.without_sender(None),
            final(woken)@ == old(woken)@ + old(shared)@.without_sender_wakers(),
    {
        if let ChannelState::Empty = shared.state {
            shared.state = ChannelState::SenderClosed;
            shared.event.signal(1, woken);
        }
        shared.event.close(woken);
    }
}

/// The receiver.
pub struct Receiver<T> {
    listener: EventListener<()>,
    marker: PhantomData<T>,
}

impl<T> Receiver<T> {
    /// The number of the listener that the receiver waits with.
    pub closed spec fn id(&self) -> usize {
        self.listener.id()
    }

    /// Closes a channel that nothing has been sent through: sending fails from then on.
    pub fn close(&mut self, shared: &mut State<T>)
        requires
            old(shared).wf(),
        ensures
            final(shared).wf(),
            *final(self) == *old(self),
            final(shared)@ == old(shared)@.receiver_closed(),
    {
        if let ChannelState::Empty = shared.state {
            shared.state = ChannelState::ReceiverClosed;
            shared.value = None;
        }
    }

    /// Receives the value if it is there. Fails if the channel was closed without one.
    pub fn try_recv(
        &mut self,
        shared: &mut State<T>,
    ) -> (received: Result<Option<T>, ChannelError>)
        requires
            old(shared).wf(),
        ensures
            final(shared).wf(),
            *final(self) == *old(self),
            match old(shared)@.state {
                ChannelState::Full => received == Ok::<Option<T>, ChannelError>(old(shared)@.value)
                    && final(shared)@ == old(shared)@.received(),
                ChannelState::Empty => received == Ok::<Option<T>, ChannelError>(None)
                    && final(shared)@ == old(shared)@,
                _ => received == Err::<Option<T>, ChannelError>(ChannelError) && final(shared)@
                    == old(shared)@,
            },
    {
        match shared.state {
            ChannelState::Full => {
                let value = shared.value.take();
                shared.state = ChannelState::Empty;
                Ok(value)
            },
            ChannelState::SenderClosed | ChannelState::ReceiverClosed => Err(ChannelError),
            ChannelState::Empty => Ok(None),
        }
    }

    /// Receives the value, or waits for it. Fails once the sender is gone without sending.
    pub fn poll(
        &mut self,
        shared: &mut State<T>,
        waker: Waker,
    ) -> (polled: Poll<Result<T, ChannelError>>)
        requires
            old(shared).wf(),
            old(shared)@.event.has(old(self).id()),
        ensures
            final(shared).wf(),
            *final(self) == *old(self),
            match old(shared)@.state {
                ChannelState::Full => polled == Poll::Ready(
                    Ok::<T, ChannelError>(old(shared)@.value->0),
                ) && final(shared)@ == old(shared)@.received(),
                ChannelState::SenderClosed => polled == Poll::Ready(
                    Err::<T, ChannelError>(ChannelError),
                ) && final(shared)@ == old(shared)@,
                _ => polled is Pending && final(shared)@ == (StateView {
                    event: if old(shared)@.event.is_notified(old(self).id()) {
                        old(shared)@.event.taken(old(self).id())
                    } else {
                        old(shared)@.event.with_waker(old(self).id(), waker)
                    },
                    ..old(shared)@
                }),
            },
    {
        match shared.state {
            ChannelState::Full => {
                let value = shared.value.take();
                shared.state = ChannelState::Empty;
                Poll::Ready(value.ok_or(ChannelError))
            },
            ChannelState::SenderClosed => Poll::Ready(Err(ChannelError)),
            _ => {
                let _ = self.listener.poll(&mut shared.event, waker);
                Poll::Pending
            },
        }
    }

    /// Gives the receiver back, which closes the channel as [`Receiver::close`] does.
    pub fn drop(self, shared: &mut State<T>, woken: &mut Vec<Waker>)
        requires
            old(shared).wf(),
        ensures
            final(shared).wf(),
            final(shared)@ == (StateView {
                event: old(shared)@.event.dropped(self.id()),
                ..old(shared)@.receiver_closed()
            }),
            final(woken)@ == old(woken)@ + old(shared)@.event.dropped_wakers(self.id()),
    {
        let mut receiver = self;
        receiver.close(shared);
        receiver.listener.drop(&mut shared.event, woken);
    }
}

} // verus!
