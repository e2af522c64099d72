//! Emitters: values that are broadcast to whoever has subscribed.
use core::task::{Poll, Waker};

use vstd::prelude::*;

pub mod laws;

use crate::event::stream::StreamState;
use crate::event::{entries, Event, EventView, NotificationExt, StreamView};
use crate::spawner::Spawner;
use crate::upgrade::{Downgrade, Upgrade};

verus! {

/// Something that can be subscribed to.
pub trait EventTarget<T>: Sized {
    /// What a subscriber gets.
    type Stream;

    /// Whether one more subscriber can be taken.
    open spec fn can_subscribe(&self) -> bool {
        true
    }

    /// Whether taking one more subscriber may turn `self` into `after` and return `stream`.
    open spec fn subscribes(&self, after: &Self, stream: Self::Stream) -> bool {
        true
    }

    /// Takes one more subscriber.
    fn subscribe(&mut self) -> (stream: Self::Stream)
        requires
            old(self).can_subscribe(),
        ensures
            old(self).subscribes(final(self), stream),
    ;

    /// Takes one more subscriber, for one value.
    fn subscribe_once(&mut self) -> (once: SubscribeOnce<Self::Stream>)
        requires
            old(self).can_subscribe(),
        ensures
            old(self).subscribes(final(self), once@),
    {
        SubscribeOnce::new(self.subscribe())
    }
}

/// Something that sends values to its subscribers.
pub trait EventEmitter<T>: Sized {
    /// Whether a value can be sent.
    open spec fn can_emit(&self) -> bool {
        true
    }

    /// Whether sending `value` may turn `self` into `after` and wake `wakers`.
    open spec fn emits(&self, value: T, after: &Self, wakers: Seq<Waker>) -> bool {
        true
    }

    /// Sends a value to all subscribers. The wakers of those that wait are added to `woken`.
    fn emit(&mut self, value: T, woken: &mut Vec<Waker>)
        requires
            old(self).can_emit(),
        ensures
            final(woken)@.len() >= old(woken)@.len(),
            final(woken)@.take(old(woken)@.len() as int) == old(woken)@,
            old(self).emits(value, final(self), final(woken)@.skip(old(woken)@.len() as int)),
    ;
}

/// Sends values to all its subscribers.
pub struct Emitter<T> {
    event: Event<T>,
}

impl<T> View for Emitter<T> {
    type V = EventView<T>;

    closed spec fn view(&self) -> EventView<T> {
        self.event@
    }
}

impl<T: Clone> Emitter<T> {
    /// An emitter without subscribers.
    pub fn new() -> (emitter: Self)
        ensures
            emitter.wf(),
            emitter@ == (EventView::<T> { listeners: Seq::empty(), next_id: 0, open: true }),
    {
        Emitter { event: Event::new_with() }
    }
}

impl<T> Emitter<T> {
    /// The event's own bookkeeping is in order.
    pub closed spec fn event_wf(&self) -> bool {
        self.event.wf()
    }

    /// The invariant of an emitter.
    pub open spec fn wf(&self) -> bool {
        self@.wf() && self.event_wf()
    }

    /// Whether one more subscriber can get a number.
    pub fn can_listen(&self) -> (can: bool)
        ensures
            can == (self@.next_id < usize::MAX),
    {
        self.event.can_listen()
    }

    /// Lets go of the emitter: its subscribers, whose tasks are woken if they wait, find no
    /// further values.
    pub fn close(&mut self, woken: &mut Vec<Waker>)
        requires
            old(self).wf(),
        ensures
            final(self).wf(),
            final(self)@ == old(self)@.closed(),
            final(woken)@ == old(woken)@ + entries::all_wakers(old(self)@.listeners),
    {
        self.event.close(woken);
    }
}

impl<T> EventTarget<T> for Emitter<T> {
    type Stream = EmitterStream<T>;

    open spec fn can_subscribe(&self) -> bool {
        self.wf() && self@.next_id < usize::MAX
    }

    open spec fn subscribes(&self, after: &Self, stream: EmitterStream<T>) -> bool {
        &&& after.wf()
        &&& after@ == self@.with_listener(None)
        &&& stream@ == StreamView::Listening(self@.next_id)
    }

    fn subscribe(&mut self) -> (stream: EmitterStream<T>) {
        EmitterStream { state: StreamState::Listening { listener: self.event.listen() } }
    }
}

impl<T: Clone> EventEmitter<T> for Emitter<T> {
    open spec fn can_emit(&self) -> bool {
        self.wf()
    }

    open spec fn emits(&self, value: T, after: &Self, wakers: Seq<Waker>) -> bool {
        let all = self@.quota(usize::MAX, false);
        &&& after.wf()
        &&& self@.notifies(all, |tag: T| cloned(value, tag), after@)
        &&& wakers == entries::chosen_wakers(self@.listeners, all)
    }

    fn emit(&mut self, value: T, woken: &mut Vec<Waker>) {
        let notification = usize::MAX.with(value);
        self.event.notify(notification, woken);
        proof {
            let all = old(self)@.quota(usize::MAX, false);
            let wakers = entries::chosen_wakers(old(self)@.listeners, all);
            assert(woken@.take(old(woken)@.len() as int) =~= old(woken)@);
            assert(woken@.skip(old(woken)@.len() as int) =~= wakers);
            assert(old(self)@.notifies(all, |tag: T| cloned(value, tag), self@));
        }
    }
}

/// A subscription to an emitter.
pub struct EmitterStream<T> {
    state: StreamState<T>,
}

impl<T> View for EmitterStream<T> {
    type V = StreamView;

    closed spec fn view(&self) -> StreamView {
        self.state@
    }
}

impl<T> EmitterStream<T> {
    /// Whether the subscription can be polled: there is a number if it has to wait for the next
    /// value.
    pub fn can_poll(&self, emitter: &Emitter<T>) -> (can: bool)
        requires
            emitter.wf(),
        ensures
            can == self@.pollable(emitter@, emitter@.open),
    {
        self.state.can_poll(&emitter.event, emitter.event.is_open())
    }

    /// Takes the value that was sent last to the subscriber; the poll after that waits for the
    /// next one, or finishes the stream once the emitter is gone.
    pub fn poll_next(&mut self, emitter: &mut Emitter<T>, waker: Waker) -> (polled: Poll<Option<T>>)
        requires
            old(emitter).wf(),
            old(self)@.pollable(old(emitter)@, old(emitter)@.open),
        ensures
            final(emitter).wf(),
            old(self)@.polls(
                old(emitter)@,
                old(emitter)@.open,
                waker,
                polled,
                final(self)@,
                final(emitter)@,
            ),
    {
        let live: bool = emitter.event.is_open();
        self.state.poll_next(&mut emitter.event, live, waker)
    }

    /// Gives the subscription back.
    pub fn drop(self, emitter: &mut Emitter<T>, woken: &mut Vec<Waker>)
        requires
            old(emitter).wf(),
        ensures
            final(emitter).wf(),
            final(emitter)@ == self@.dropped(old(emitter)@),
            final(woken)@ == old(woken)@ + self@.dropped_wakers(old(emitter)@),
    {
        self.state.drop(&mut emitter.event, woken);
    }
}

/// How running a [`Listener`] goes on.
#[derive(Debug, PartialEq, Eq)]
#[verifier::reject_recursive_types(D)]
pub enum ListenerStep<D> {
    /// With polling its stream, the result of which is to be given to [`Listener::polled`].
    PollStream,
    /// With calling its callback with this value, the result of which is to be given to
    /// [`Listener::called`].
    Call(D),
    /// Not at all: this is the result.
    Return(Poll<()>),
}

/// A task that hands every value of a stream to a callback until the callback has enough.
pub struct Listener<T, F> {
    stream: T,
    map: F,
    done: bool,
}

/// What a [`Listener`] holds.
pub struct ListenerView<T, F> {
    /// The stream.
    pub stream: T,
    /// The callback.
    pub map: F,
    /// Whether the stream has ended or the callback has had enough.
    pub done: bool,
}

impl<T, F> ListenerView<T, F> {
    /// How a run goes on between two values: with the next one, unless everything is done.
    pub open spec fn next_step<D>(self) -> ListenerStep<D> {
        if self.done {
            ListenerStep::Return(Poll::Ready(()))
        } else {
            ListenerStep::PollStream
        }
    }

    /// How a run goes on once polling the stream has returned `polled`: a value goes to the
    /// callback, and the end of the stream is the end of the task.
    pub open spec fn poll_step<D>(self, polled: Poll<Option<D>>) -> ListenerStep<D> {
        match polled {
            Poll::Ready(Some(data)) => ListenerStep::Call(data),
            Poll::Ready(None) => ListenerStep::Return(Poll::Ready(())),
            Poll::Pending => ListenerStep::Return(Poll::Pending),
        }
    }

    /// `self` once polling the stream has returned `polled`.
    pub open spec fn after_poll<D>(self, polled: Poll<Option<D>>) -> ListenerView<T, F> {
        ListenerView { done: self.done || polled == Poll::Ready(None::<D>), ..self }
    }

    /// `self` once the callback has told whether it wants more.
    pub open spec fn after_call(self, more: bool) -> ListenerView<T, F> {
        ListenerView { done: self.done || !more, ..self }
    }
}

impl<T, F> View for Listener<T, F> {
    type V = ListenerView<T, F>;

    closed spec fn view(&self) -> ListenerView<T, F> {
        ListenerView { stream: self.stream, map: self.map, done: self.done }
    }
}

impl<T, F> Listener<T, F> {
    /// The task that hands the values of `stream` to `map`.
    pub fn new(stream: T, map: F) -> (listener: Self)
        ensures
            listener@ == (ListenerView { stream, map, done: false }),
    {
        Listener { stream, map, done: false }
    }

    /// The stream, to be polled.
    pub fn stream(&mut self) -> (stream: &mut T)
        ensures
            *stream == old(self)@.stream,
            final(self)@ == (ListenerView { stream: *final(stream), ..old(self)@ }),
    {
        &mut self.stream
    }

    /// The callback, to be called.
    pub fn map(&mut self) -> (map: &mut F)
        ensures
            *map == old(self)@.map,
            final(self)@ == (ListenerView { map: *final(map), ..old(self)@ }),
    {
        &mut self.map
    }

    /// Begins to run: polls the stream, unless everything is done.
    pub fn begin<D>(&self) -> (step: ListenerStep<D>)
        ensures
            step == self@.next_step::<D>(),
    {
        if self.done {
            ListenerStep::Return(Poll::Ready(()))
        } else {
            ListenerStep::PollStream
        }
    }

    /// Goes on with what polling the stream returned: a value goes to the callback, and the end
    /// of the stream is the end of the task.
    pub fn polled<D>(&mut self, polled: Poll<Option<D>>) -> (step: ListenerStep<D>)
        ensures
            final(self)@ == old(self)@.after_poll(polled),
            step == old(self)@.poll_step(polled),
    {
        match polled {
            Poll::Ready(Some(data)) => ListenerStep::Call(data),
            Poll::Ready(None) => {
                self.done = true;
                ListenerStep::Return(Poll::Ready(()))
            },
            Poll::Pending => ListenerStep::Return(Poll::Pending),
        }
    }

    /// Goes on with what the callback returned: the next value, or the end of the task.
    pub fn called<D>(&mut self, more: bool) -> (step: ListenerStep<D>)
        ensures
            final(self)@ == old(self)@.after_call(more),
            step == final(self)@.next_step::<D>(),
    {
        if !more {
            self.done = true;
        }
        self.begin()
    }
}

/// A task that takes one value of a stream.
pub struct SubscribeOnce<T> {
    stream: T,
}

impl<T> View for SubscribeOnce<T> {
    type V = T;

    closed spec fn view(&self) -> T {
        self.stream
    }
}

impl<T> SubscribeOnce<T> {
    /// The task that takes one value of `stream`.
    pub fn new(stream: T) -> (once: Self)
        ensures
            once@ == stream,
    {
        SubscribeOnce { stream }
    }

    /// The stream, to be polled.
    pub fn stream(&mut self) -> (stream: &mut T)
        ensures
            *stream == old(self)@,
            final(self)@ == *final(stream),
    {
        &mut self.stream
    }

    /// What comes of it that polling the stream, which must not have ended, returned `polled`.
    pub fn polled<D>(&self, polled: Poll<Option<D>>) -> (taken: Poll<D>)
        requires
            polled != Poll::Ready(None::<D>),
        ensures
            taken == (match polled {
                Poll::Ready(Some(data)) => Poll::Ready(data),
                _ => Poll::<D>::Pending,
            }),
    {
        match polled {
            Poll::Ready(Some(data)) => Poll::Ready(data),
            _ => Poll::Pending,
        }
    }
}

/// A callback together with what is left of a value that it needs.
pub struct WithWeak<W, F> {
    value: W,
    map: F,
}

impl<W, F> View for WithWeak<W, F> {
    type V = (W, F);

    closed spec fn view(&self) -> (W, F) {
        (self.value, self.map)
    }
}

impl<W, F> WithWeak<W, F> {
    /// The callback `map`, which needs what is left in `value`.
    pub fn new(value: W, map: F) -> (callback: Self)
        ensures
            callback@ == (value, map),
    {
        WithWeak { value, map }
    }
}

impl<W, F> WithWeak<W, F> where W: Upgrade {
    /// Calls the callback with the value that it needs and with `event`, and tells whether it
    /// wants more. If the value is gone, nothing is called and nothing more is wanted.
    pub fn call<D>(&mut self, event: D) -> (more: bool) where
        F: FnMut(<W as Upgrade>::Target, D) -> bool,

        requires
            forall|strong: <W as Upgrade>::Target|
                #[trigger] old(self)@.0.upgrades(Some(strong)) ==> call_requires(
                    old(self)@.1,
                    (strong, event),
                ),
        ensures
            final(self)@.0 == old(self)@.0,
            (!more && old(self)@.0.upgrades(None) && final(self)@ == old(self)@)
                || exists|strong: <W as Upgrade>::Target|
                #[trigger] old(self)@.0.upgrades(Some(strong)) && call_ensures(
                    old(self)@.1,
                    (strong, event),
                    more,
                ),
    {
        let ghost before = self@;
        match self.value.upgrade() {
            Some(strong) => {
                assert(before.0.upgrades(Some(strong)));
                (self.map)(strong, event)
            },
            None => false,
        }
    }
}

/// Ways to subscribe a task.
pub trait EventTargetExt<T>: EventTarget<T> {
    /// Hands over a task that calls `map` with every value until it returns `false`.
    fn listen<F, S>(&mut self, spawner: &mut S, map: F) -> (handle: S::Task) where
        S: Spawner<Listener<Self::Stream, F>>,

        requires
            old(self).can_subscribe(),
            old(spawner).can_spawn(),
        ensures
            exists|task: Listener<Self::Stream, F>|
                {
                    &&& task@.map == map
                    &&& !task@.done
                    &&& old(self).subscribes(final(self), task@.stream)
                    &&& #[trigger] old(spawner).spawns(task, final(spawner), handle)
                },
    {
        let task = Listener::new(self.subscribe(), map);
        spawner.spawn(task)
    }

    /// Hands over a task that calls `map` with `value` and every value of the stream until it
    /// returns `false` or `value`, which nothing keeps through this, is gone.
    fn listen_with<W, F, S>(&mut self, spawner: &mut S, value: W, map: F) -> (handle: S::Task) where
        W: Downgrade,
        S: Spawner<Listener<Self::Stream, WithWeak<<W as Downgrade>::Target, F>>>,

        requires
            old(self).can_subscribe(),
            old(spawner).can_spawn(),
        ensures
            exists|task: Listener<Self::Stream, WithWeak<<W as Downgrade>::Target, F>>|
                {
                    &&& value.downgrades(task@.map@.0)
                    &&& task@.map@.1 == map
                    &&& !task@.done
                    &&& old(self).subscribes(final(self), task@.stream)
                    &&& #[trigger] old(spawner).spawns(task, final(spawner), handle)
                },
    {
        self.listen(spawner, WithWeak::new(value.downgrade(), map))
    }
}

impl<T, E> EventTargetExt<T> for E where E: EventTarget<T> {

}

} // verus!
