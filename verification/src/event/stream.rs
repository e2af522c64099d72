//! Streams of notifications.
use core::task::{Poll, Waker};

use vstd::prelude::*;

use super::{Event, EventListener, EventView};

verus! {

/// Where a stream of notifications stands.
pub enum StreamView {
    /// Waiting with the listener of this number.
    Listening(usize),
    /// About to register the next listener.
    Next,
    /// Finished.
    Done,
}

impl StreamView {
    /// Whether a stream in this state can be polled: its listener is registered, or the next
    /// one, if it is going to be registered, can get a number.
    pub open spec fn pollable<T>(self, event: EventView<T>, live: bool) -> bool {
        match self {
            StreamView::Listening(id) => event.has(id),
            StreamView::Next => live ==> event.next_id < usize::MAX,
            StreamView::Done => true,
        }
    }

    /// What polling a stream in this state does, where `live` tells whether the event can
    /// still be reached: the result, the stream's next state and the event afterwards.
    pub open spec fn polls<T>(
        self,
        event: EventView<T>,
        live: bool,
        waker: Waker,
        polled: Poll<Option<T>>,
        after: StreamView,
        event_after: EventView<T>,
    ) -> bool {
        match self {
            StreamView::Listening(id) => match event.entry(id).value {
                Some(value) => {
                    &&& polled == Poll::Ready(Some(value))
                    &&& after == StreamView::Next
                    &&& event_after == event.without(id)
                },
                None => {
                    &&& polled is Pending
                    &&& after == self
                    &&& event_after == event.with_waker(id, waker)
                },
            },
            StreamView::Next => if live {
                &&& polled is Pending
                &&& after == StreamView::Listening(event.next_id)
                &&& event_after == event.with_listener(Some(waker))
            } else {
                &&& polled == Poll::Ready(None::<T>)
                &&& after == StreamView::Done
                &&& event_after == event
            },
            StreamView::Done => {
                &&& polled == Poll::Ready(None::<T>)
                &&& after == self
                &&& event_after == event
            },
        }
    }

    /// The event after a stream in this state has been given back.
    pub open spec fn dropped<T>(self, event: EventView<T>) -> EventView<T> {
        match self {
            StreamView::Listening(id) => event.dropped(id),
            _ => event,
        }
    }

    /// The waker that giving a stream in this state back wakes.
    pub open spec fn dropped_wakers<T>(self, event: EventView<T>) -> Seq<Waker> {
        match self {
            StreamView::Listening(id) => event.dropped_wakers(id),
            _ => Seq::empty(),
        }
    }
}

/// The state of a stream of notifications.
pub(crate) enum StreamState<T> {
    Listening { listener: EventListener<T> },
    Next,
    Done,
}

impl<T> StreamState<T> {
    pub(crate) open spec fn view(&self) -> StreamView {
        match *self {
            StreamState::Listening { listener } => StreamView::Listening(listener.id()),
            StreamState::Next => StreamView::Next,
            StreamState::Done => StreamView::Done,
        }
    }
}

impl<T> StreamState<T> {
    pub(crate) fn can_poll(&self, event: &Event<T>, live: bool) -> (can: bool)
        requires
            event.wf(),
        ensures
            can == self@.pollable(event@, live),
    {
        match self {
            StreamState::Listening { listener } => listener.is_notified(event)
                || !listener.is_terminated(event),
            StreamState::Next => !live || event.can_listen(),
            StreamState::Done => true,
        }
    }

    pub(crate) fn poll_next(
        &mut self,
        event: &mut Event<T>,
        live: bool,
        waker: Waker,
    ) -> (polled: Poll<Option<T>>)
        requires
            old(event).wf(),
            old(self)@.pollable(old(event)@, live),
        ensures
            final(event).wf(),
            old(self)@.polls(old(event)@, live, waker, polled, final(self)@, final(event)@),
    {
        let mut state = StreamState::Done;
        core::mem::swap(self, &mut state);
        match state {
            StreamState::Listening { listener } => match listener.take(event) {
                Some(value) => {
                    proof {
                        super::lemma_without_taken(old(event)@, listener.id());
                    }
                    listener.discard(event);
                    *self = StreamState::Next;
                    Poll::Ready(Some(value))
                },
                None => {
                    listener.wait(event, waker);
                    *self = StreamState::Listening { listener };
                    Poll::Pending
                },
            },
            StreamState::Next => if live {
                let listener = event.listen();
                proof {
                    super::lemma_with_listener(old(event)@, waker);
                }
                listener.wait(event, waker);
                *self = StreamState::Listening { listener };
                Poll::Pending
            } else {
                Poll::Ready(None)
            },
            StreamState::Done => Poll::Ready(None),
        }
    }

    pub(crate) fn drop(self, event: &mut Event<T>, woken: &mut Vec<Waker>)
        requires
            old(event).wf(),
        ensures
            final(event).wf(),
            final(event)@ == self@.dropped(old(event)@),
            final(woken)@ == old(woken)@ + self@.dropped_wakers(old(event)@),
    {
        if let StreamState::Listening { listener } = self {
            listener.drop(event, woken);
        }
    }
}

/// A stream of notifications of an event.
pub struct EventStream<T> {
    state: StreamState<T>,
}

impl<T> View for EventStream<T> {
    type V = StreamView;

    closed spec fn view(&self) -> StreamView {
        self.state.view()
    }
}

impl<T> EventStream<T> {
    /// The stream that waits with `listener`.
    pub(super) fn new(listener: EventListener<T>) -> (stream: Self)
        ensures
            stream@ == StreamView::Listening(listener.id()),
    {
        EventStream { state: StreamState::Listening { listener } }
    }

    /// Whether the stream can be polled: there is a number if it has to register its next
    /// listener.
    pub fn can_poll(&self, event: &Event<T>) -> (can: bool)
        requires
            event.wf(),
        ensures
            can == self@.pollable(event@, event@.reachable()),
    {
        self.state.can_poll(event, event.open || event.listeners.len() > 0)
    }

    /// Takes the notification of the stream's listener; the poll after that registers the
    /// next listener, or finishes the stream once nothing keeps the event.
    pub fn poll_next(&mut self, event: &mut Event<T>, waker: Waker) -> (polled: Poll<Option<T>>)
        requires
            old(event).wf(),
            old(self)@.pollable(old(event)@, old(event)@.reachable()),
        ensures
            final(event).wf(),
            old(self)@.polls(
                old(event)@,
                old(event)@.reachable(),
                waker,
                polled,
                final(self)@,
                final(event)@,
            ),
    {
        let live: bool = event.open || event.listeners.len() > 0;
        self.state.poll_next(event, live, waker)
    }

    /// Gives the stream back, and with it its listener.
    pub fn drop(self, event: &mut Event<T>, woken: &mut Vec<Waker>)
        requires
            old(event).wf(),
        ensures
            final(event).wf(),
            final(event)@ == self@.dropped(old(event)@),
            final(woken)@ == old(woken)@ + self@.dropped_wakers(old(event)@),
    {
        self.state.drop(event, woken);
    }
}

} // verus!
