//! How a future waits for an event: it leaves a listener there until it is notified.
use core::task::Waker;

use vstd::prelude::*;

pub mod exact;

use crate::event::{Event, EventListener, EventView};

verus! {

/// The number of the listener that a future waits with, if it waits.
pub type Waiter = Option<usize>;

/// Whether the listener that `waiter` names, if any, is registered with the event.
pub open spec fn attached(waiter: Waiter, event: EventView<()>) -> bool {
    waiter matches Some(id) ==> event.has(id)
}

/// Whether a future need not wait any longer: it does not wait, or it has been notified.
pub open spec fn ready(waiter: Waiter, event: EventView<()>) -> bool {
    waiter matches Some(id) ==> event.is_notified(id)
}

/// The event after a future has stopped waiting for it.
pub open spec fn released(waiter: Waiter, event: EventView<()>) -> EventView<()> {
    match waiter {
        Some(id) => event.without(id),
        None => event,
    }
}

/// The event after a future has started to wait for it, or goes on waiting, with `waker`.
pub open spec fn parked(waiter: Waiter, event: EventView<()>, waker: Waker) -> EventView<()> {
    match waiter {
        Some(id) => event.with_waker(id, waker),
        None => event.with_listener(Some(waker)),
    }
}

/// The listener that a future waits with after it has started to wait, or goes on waiting.
pub open spec fn parked_waiter(waiter: Waiter, event: EventView<()>) -> Waiter {
    match waiter {
        Some(id) => Some(id),
        None => Some(event.next_id),
    }
}

/// The event after a future that may be waiting for it has been given up.
pub open spec fn abandoned(waiter: Waiter, event: EventView<()>) -> EventView<()> {
    match waiter {
        Some(id) => event.dropped(id),
        None => event,
    }
}

/// The waker that giving up a future that may be waiting for the event wakes.
pub open spec fn abandoned_wakers(waiter: Waiter, event: EventView<()>) -> Seq<Waker> {
    match waiter {
        Some(id) => event.dropped_wakers(id),
        None => Seq::empty(),
    }
}

/// Whether a future waits, and with which listener.
pub(crate) enum WaitState {
    Waiting { listener: EventListener<()> },
    Idle,
}

impl WaitState {
    pub(crate) open spec fn view(&self) -> Waiter {
        match *self {
            WaitState::Waiting { listener } => Some(listener.id()),
            WaitState::Idle => None,
        }
    }

    /// Whether the listener that it waits with, if any, is registered with the event.
    pub(crate) fn is_attached(&self, event: &Event<()>) -> (is: bool)
        requires
            event.wf(),
        ensures
            is == attached(self@, event@),
    {
        match self {
            WaitState::Waiting { listener } => listener.is_notified(event)
                || !listener.is_terminated(event),
            WaitState::Idle => true,
        }
    }

    /// Whether there is nothing to wait for any longer.
    pub(crate) fn is_ready(&self, event: &Event<()>) -> (is: bool)
        requires
            event.wf(),
        ensures
            is == ready(self@, event@),
    {
        match self {
            WaitState::Waiting { listener } => listener.is_notified(event),
            WaitState::Idle => true,
        }
    }

    /// Stops waiting if there is nothing to wait for any longer, and tells whether it did.
    pub(crate) fn resume(&mut self, event: &mut Event<()>) -> (resumed: bool)
        requires
            old(event).wf(),
            attached(old(self)@, old(event)@),
        ensures
            final(event).wf(),
            resumed == ready(old(self)@, old(event)@),
            resumed ==> final(self)@ is None && final(event)@ == released(
                old(self)@,
                old(event)@,
            ),
            !resumed ==> final(self)@ == old(self)@ && final(event)@ == old(event)@,
    {
        let mut state = WaitState::Idle;
        core::mem::swap(self, &mut state);
        match state {
            WaitState::Waiting { listener } => match listener.take(event) {
                Some(_) => {
                    proof {
                        crate::event::lemma_without_taken(old(event)@, listener.id());
                    }
                    listener.discard(event);
                    true
                },
                None => {
                    *self = WaitState::Waiting { listener };
                    false
                },
            },
            WaitState::Idle => true,
        }
    }

    /// Starts to wait, or goes on waiting, with `waker`.
    pub(crate) fn park(&mut self, event: &mut Event<()>, waker: Waker)
        requires
            old(event).wf(),
            attached(old(self)@, old(event)@),
            old(self)@ is Some ==> !ready(old(self)@, old(event)@),
            old(self)@ is None ==> old(event)@.next_id < usize::MAX,
        ensures
            final(event).wf(),
            final(self)@ == parked_waiter(old(self)@, old(event)@),
            final(event)@ == parked(old(self)@, old(event)@, waker),
            attached(final(self)@, final(event)@),
    {
        if let WaitState::Waiting { listener } = self {
            listener.wait(event, waker);
            proof {
                crate::event::lemma_position(
                    event@,
                    old(event)@.position(listener.id()),
                );
            }
        } else {
            let listener = event.listen();
            proof {
                crate::event::lemma_with_listener(old(event)@, waker);
            }
            listener.wait(event, waker);
            proof {
                crate::event::lemma_position(event@, old(event)@.listeners.len() as int);
            }
            *self = WaitState::Waiting { listener };
        }
    }

    /// Gives up waiting.
    pub(crate) fn abandon(self, event: &mut Event<()>, woken: &mut Vec<Waker>)
        requires
            old(event).wf(),
        ensures
            final(event).wf(),
            final(event)@ == abandoned(self@, old(event)@),
            final(woken)@ == old(woken)@ + abandoned_wakers(self@, old(event)@),
    {
        if let WaitState::Waiting { listener } = self {
            listener.drop(event, woken);
        }
    }
}

} // verus!
