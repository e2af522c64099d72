//! What holds of emitters and listeners as a whole.
use core::task::{Poll, Waker};

use vstd::prelude::*;

use super::{Emitter, EmitterStream, EventEmitter, EventTarget, ListenerStep, ListenerView};
use crate::event::{entries, exact, EventView, StreamView};

verus! {

/// Every subscriber that waits when a value is sent receives a clone of it; one that has not
/// taken an earlier value yet keeps that one.
pub proof fn law_emitted_to_all<T: Clone>(
    emitter: Emitter<T>,
    value: T,
    after: Emitter<T>,
    wakers: Seq<Waker>,
    i: int,
)
    requires
        emitter.emits(value, &after, wakers),
        0 <= i < emitter@.listeners.len(),
    ensures
        after@.listeners[i].id == emitter@.listeners[i].id,
        match emitter@.listeners[i].value {
            Some(earlier) => after@.listeners[i].value == Some(earlier),
            None => after@.listeners[i].value is Some && cloned(
                value,
                after@.listeners[i].value->0,
            ),
        },
        emitter@.listeners[i].value is None && emitter@.listeners[i].waker is Some
            ==> wakers.contains(emitter@.listeners[i].waker->0),
{
    let all = emitter@.quota(usize::MAX, false);
    entries::lemma_waiting_bound(emitter@.listeners.take(i));
    assert(after@.listeners[i].id == emitter@.listeners[i].id);
    if emitter@.listeners[i].value is None && emitter@.listeners[i].waker is Some {
        crate::event::laws::law_notified_are_woken(emitter@.listeners, all, i);
    }
}

/// Something that happens while a [`Listener`] is run.
#[verifier::reject_recursive_types(D)]
pub enum ListenerEvent<D> {
    /// It begins to run.
    Begin,
    /// Its stream is polled, with this result.
    Polled(Poll<Option<D>>),
    /// Its callback is called and tells whether it wants more.
    Called(bool),
}

/// The listener after the events of its runs so far.
pub open spec fn listener_after<T, F, D>(
    listener: ListenerView<T, F>,
    events: Seq<ListenerEvent<D>>,
) -> ListenerView<T, F>
    decreases events.len(),
{
    if events.len() == 0 {
        listener
    } else {
        let before = listener_after(listener, events.drop_last());
        match events.last() {
            ListenerEvent::Begin => before,
            ListenerEvent::Polled(polled) => before.after_poll(polled),
            ListenerEvent::Called(more) => before.after_call(more),
        }
    }
}

/// What the listener asks for after the events of its runs so far. One that has not begun to run
/// asks for nothing.
pub open spec fn listener_step<T, F, D>(
    listener: ListenerView<T, F>,
    events: Seq<ListenerEvent<D>>,
) -> ListenerStep<D>
    decreases events.len(),
{
    if events.len() == 0 {
        ListenerStep::Return(Poll::Pending)
    } else {
        match events.last() {
            ListenerEvent::Polled(polled) => listener_after(
                listener,
                events.drop_last(),
            ).poll_step(polled),
            _ => listener_after(listener, events).next_step(),
        }
    }
}

/// Whether the listener is run as it asks: it begins to run when it is not running, its stream
/// is polled when it asks for that, and its callback is called when it asks for that.
pub open spec fn runs_as_asked<T, F, D>(
    listener: ListenerView<T, F>,
    events: Seq<ListenerEvent<D>>,
) -> bool
    decreases events.len(),
{
    events.len() > 0 ==> {
        let step = listener_step(listener, events.drop_last());
        &&& runs_as_asked(listener, events.drop_last())
        &&& match events.last() {
            ListenerEvent::Begin => step is Return,
            ListenerEvent::Polled(_) => step is PollStream,
            ListenerEvent::Called(_) => step is Call,
        }
    }
}

/// The items that the stream has given, in order.
pub open spec fn items_of<D>(events: Seq<ListenerEvent<D>>) -> Seq<D>
    decreases events.len(),
{
    if events.len() == 0 {
        Seq::empty()
    } else {
        match events.last() {
            ListenerEvent::Polled(Poll::Ready(Some(data))) => items_of(events.drop_last()).push(
                data,
            ),
            _ => items_of(events.drop_last()),
        }
    }
}

/// What the callback has been called with, in order: each time with what the listener asked for.
pub open spec fn calls_of<T, F, D>(
    listener: ListenerView<T, F>,
    events: Seq<ListenerEvent<D>>,
) -> Seq<D>
    decreases events.len(),
{
    if events.len() == 0 {
        Seq::empty()
    } else {
        let before = calls_of(listener, events.drop_last());
        match (events.last(), listener_step(listener, events.drop_last())) {
            (ListenerEvent::Called(_), ListenerStep::Call(data)) => before.push(data),
            _ => before,
        }
    }
}

/// What the callback has answered, in order.
pub open spec fn answers_of<D>(events: Seq<ListenerEvent<D>>) -> Seq<bool>
    decreases events.len(),
{
    if events.len() == 0 {
        Seq::empty()
    } else {
        match events.last() {
            ListenerEvent::Called(more) => answers_of(events.drop_last()).push(more),
            _ => answers_of(events.drop_last()),
        }
    }
}

/// Whether the stream has ended.
pub open spec fn stream_ended<D>(events: Seq<ListenerEvent<D>>) -> bool {
    exists|i: int|
        0 <= i < events.len() && #[trigger] events[i] == ListenerEvent::<D>::Polled(
            Poll::Ready(None),
        )
}

/// What any number of runs of a new listener do, whatever its stream gives and its callback
/// answers.
///
/// - Every item of the stream goes to the callback, once and in order, before anything else is
///   asked for.
/// - The callback has wanted more each time but possibly the last.
/// - The listener is done exactly when the callback has had enough or the stream has ended.
/// - A run ends with `Poll::Ready` exactly when the listener is done, and with `Poll::Pending`
///   exactly when the stream had nothing more for now, so it takes every item that is ready.
pub proof fn law_listener_runs<T, F, D>(stream: T, map: F, events: Seq<ListenerEvent<D>>)
    requires
        runs_as_asked(ListenerView { stream, map, done: false }, events),
    ensures
        ({
            let new = ListenerView { stream, map, done: false };
            let step = listener_step(new, events);
            let calls = calls_of(new, events);
            let answers = answers_of(events);
            &&& items_of(events) == (match step {
                ListenerStep::Call(data) => calls.push(data),
                _ => calls,
            })
            &&& answers.len() == calls.len()
            &&& forall|i: int| 0 <= i < answers.len() - 1 ==> #[trigger] answers[i]
            &&& listener_after(new, events).done <==> stream_ended(events) || answers.contains(
                false,
            )
            &&& events.len() > 0 && step is Return ==> {
                &&& step == ListenerStep::<D>::Return(Poll::Ready(())) <==> listener_after(
                    new,
                    events,
                ).done
                &&& step == ListenerStep::<D>::Return(Poll::Pending) <==> events.last()
                    == ListenerEvent::<D>::Polled(Poll::Pending)
            }
        }),
    decreases events.len(),
{
    let new = ListenerView { stream, map, done: false };
    if events.len() > 0 {
        let before = events.drop_last();
        let last = events.last();
        law_listener_runs::<T, F, D>(stream, map, before);
        lemma_done_asks_nothing(new, before);
        let answers = answers_of(events);
        let earlier = answers_of(before);
        assert(stream_ended(events) <==> stream_ended(before) || last == ListenerEvent::<
            D,
        >::Polled(Poll::Ready(None))) by {
            if stream_ended(before) {
                let i = choose|i: int|
                    0 <= i < before.len() && #[trigger] before[i] == ListenerEvent::<D>::Polled(
                        Poll::Ready(None),
                    );
                assert(events[i] == before[i]);
            }
            if stream_ended(events) {
                let i = choose|i: int|
                    0 <= i < events.len() && #[trigger] events[i] == ListenerEvent::<D>::Polled(
                        Poll::Ready(None),
                    );
                if i < before.len() {
                    assert(before[i] == events[i]);
                }
            }
            if last == ListenerEvent::<D>::Polled(Poll::Ready(None)) {
                assert(events[events.len() - 1] == last);
            }
        }
        if let ListenerEvent::Called(more) = last {
            assert(answers == earlier.push(more));
            assert(!earlier.contains(false));
            assert(answers.contains(false) <==> !more) by {
                if !more {
                    assert(answers[earlier.len() as int] == false);
                }
            }
            assert forall|i: int| 0 <= i < answers.len() - 1 implies #[trigger] answers[i] by {
                assert(answers[i] == earlier[i]);
                assert(earlier.contains(earlier[i]));
            }
        } else {
            assert(answers == earlier);
        }
    }
}

/// A listener that is done asks for nothing, and one that asks for something is not done.
proof fn lemma_done_asks_nothing<T, F, D>(
    listener: ListenerView<T, F>,
    events: Seq<ListenerEvent<D>>,
)
    requires
        !listener.done,
        runs_as_asked(listener, events),
    ensures
        listener_after(listener, events).done ==> listener_step(listener, events)
            == ListenerStep::<D>::Return(Poll::Ready(())),
    decreases events.len(),
{
    if events.len() > 0 {
        lemma_done_asks_nothing(listener, events.drop_last());
    }
}

/// A listener stops for good: once it is done, nothing happens in any run but that it begins, and
/// each run ends at once with `Poll::Ready`. Its stream is not polled and its callback not called.
pub proof fn law_listener_stops<T, F, D>(
    listener: ListenerView<T, F>,
    events: Seq<ListenerEvent<D>>,
    i: int,
)
    requires
        !listener.done,
        runs_as_asked(listener, events),
        0 <= i < events.len(),
        listener_after(listener, events.take(i)).done,
    ensures
        events[i] == ListenerEvent::<D>::Begin,
        listener_after(listener, events).done,
        listener_step(listener, events) == ListenerStep::<D>::Return(Poll::Ready(())),
    decreases events.len(),
{
    let before = events.drop_last();
    lemma_done_asks_nothing(listener, before);
    lemma_done_asks_nothing(listener, events);
    if i < before.len() {
        assert(before.take(i) =~= events.take(i));
        law_listener_stops(listener, before, i);
    } else {
        assert(before =~= events.take(i));
    }
}

/// A subscriber to an emitter that is gone receives the value that it was sent last and then
/// the end of the stream, for good.
pub proof fn law_stream_finishes<T>(
    event: EventView<T>,
    id: usize,
    waker: Waker,
    first: Poll<Option<T>>,
    state: StreamView,
    between: EventView<T>,
    second: Poll<Option<T>>,
    last: StreamView,
    after: EventView<T>,
)
    requires
        event.is_notified(id),
        !event.open,
        StreamView::Listening(id).polls(event, event.open, waker, first, state, between),
        state.polls(between, between.open, waker, second, last, after),
    ensures
        first == Poll::Ready(event.entry(id).value),
        second == Poll::Ready(None::<T>),
        last == StreamView::Done,
{
}

/// What sending a value does: every subscriber that holds no value gets a clone of it, in place of
/// its waker; one that has not taken an earlier value yet stays as it is; and woken are exactly the
/// tasks of those that got one, each once, in the order of subscription.
pub proof fn law_emit_exact<T: Clone>(
    emitter: Emitter<T>,
    value: T,
    after: Emitter<T>,
    wakers: Seq<Waker>,
)
    requires
        emitter.emits(value, &after, wakers),
    ensures
        after@.next_id == emitter@.next_id,
        after@.open == emitter@.open,
        after@.listeners.len() == emitter@.listeners.len(),
        forall|i: int|
            0 <= i < emitter@.listeners.len() ==> {
                let was = emitter@.listeners[i];
                let is = #[trigger] after@.listeners[i];
                if was.value is Some {
                    is == was
                } else {
                    is.id == was.id && is.waker is None && (is.value matches Some(tag) && cloned(
                        value,
                        tag,
                    ))
                }
            },
        exists|at: Seq<int>|
            #[trigger] exact::wakers_at(emitter@.listeners, wakers, at) && forall|i: int|
                0 <= i < emitter@.listeners.len() ==> (at.contains(i) <==> (
                #[trigger] emitter@.listeners[i]).value is None
                    && emitter@.listeners[i].waker is Some),
{
    let is_tag = |tag: T| cloned(value, tag);
    crate::event::laws::law_notify_all(emitter@, false, is_tag, after@);
    exact::law_notify_exact(emitter@, usize::MAX, false, is_tag, after@, wakers);
    assert forall|i: int| 0 <= i < emitter@.listeners.len() implies ({
        let was = emitter@.listeners[i];
        let is = #[trigger] after@.listeners[i];
        if was.value is Some {
            is == was
        } else {
            is.id == was.id && is.waker is None && (is.value matches Some(tag) && cloned(
                value,
                tag,
            ))
        }
    }) by {
        assert(after@.listeners[i].value is Some);
    }
    let at = choose|at: Seq<int>|
        #[trigger] exact::wakers_at(emitter@.listeners, wakers, at) && forall|i: int|
            0 <= i < emitter@.listeners.len() ==> (at.contains(i) <==> (
            #[trigger] emitter@.listeners[i]).value is None && emitter@.listeners[i].waker is Some
                && after@.listeners[i].value is Some);
    assert forall|i: int| 0 <= i < emitter@.listeners.len() implies (at.contains(i) <==> (
    #[trigger] emitter@.listeners[i]).value is None && emitter@.listeners[i].waker is Some) by {
        assert(after@.listeners[i].value is Some);
    }
    assert(exact::wakers_at(emitter@.listeners, wakers, at));
}

/// What subscribing does: one more listener waits, with the stream.
pub proof fn law_subscribe_exact<T>(
    emitter: Emitter<T>,
    after: Emitter<T>,
    stream: EmitterStream<T>,
)
    requires
        emitter.subscribes(&after, stream),
    ensures
        after@ == emitter@.with_listener(None),
        stream@ == StreamView::Listening(emitter@.next_id),
{
}

/// A value that is sent while a subscriber waits is what the subscriber's next poll yields.
pub proof fn law_emitted_is_yielded<T: Clone>(
    emitter: Emitter<T>,
    i: int,
    value: T,
    after: Emitter<T>,
    wakers: Seq<Waker>,
    waker: Waker,
    polled: Poll<Option<T>>,
    stream: StreamView,
    last: EventView<T>,
)
    requires
        exact::distinct(emitter@),
        0 <= i < emitter@.listeners.len(),
        emitter@.listeners[i].value is None,
        emitter.emits(value, &after, wakers),
        StreamView::Listening(emitter@.listeners[i].id).polls(
            after@,
            after@.open,
            waker,
            polled,
            stream,
            last,
        ),
    ensures
        polled matches Poll::Ready(Some(yielded)) && cloned(value, yielded),
        emitter@.listeners[i].waker matches Some(own) ==> wakers.contains(own),
        stream == StreamView::Next,
{
    law_emit_exact(emitter, value, after, wakers);
    assert(after@.listeners[i].id == emitter@.listeners[i].id);
    assert(exact::distinct(after@)) by {
        assert forall|j: int, k: int| 0 <= j < k < after@.listeners.len() implies (
        #[trigger] after@.listeners[j]).id != (#[trigger] after@.listeners[k]).id by {
            assert(emitter@.listeners[j].id != emitter@.listeners[k].id);
            assert(after@.listeners[j].id == emitter@.listeners[j].id);
            assert(after@.listeners[k].id == emitter@.listeners[k].id);
        }
    }
    exact::law_stream_exact(
        StreamView::Listening(emitter@.listeners[i].id),
        after@,
        after@.open,
        waker,
        polled,
        stream,
        last,
        i,
    );
    if let Some(own) = emitter@.listeners[i].waker {
        let at = choose|at: Seq<int>|
            #[trigger] exact::wakers_at(emitter@.listeners, wakers, at) && forall|i: int|
                0 <= i < emitter@.listeners.len() ==> (at.contains(i) <==> (
                #[trigger] emitter@.listeners[i]).value is None
                    && emitter@.listeners[i].waker is Some);
        assert(at.contains(i));
        let n = at.index_of(i);
        assert(at[n] == i);
        assert(wakers[n] == own);
    }
}

/// A subscriber that has taken a value and is polled again while the emitter is there waits for the
/// next value, which its next poll then yields.
pub proof fn law_subscriber_stays<T: Clone>(
    emitter: Emitter<T>,
    waker: Waker,
    polled: Poll<Option<T>>,
    stream: StreamView,
    listening: Emitter<T>,
    value: T,
    after: Emitter<T>,
    wakers: Seq<Waker>,
    again: Waker,
    next: Poll<Option<T>>,
    last_stream: StreamView,
    last: EventView<T>,
)
    requires
        emitter@.wf(),
        emitter@.open,
        StreamView::Next.polls(emitter@, emitter@.open, waker, polled, stream, listening@),
        listening.emits(value, &after, wakers),
        stream.polls(after@, after@.open, again, next, last_stream, last),
    ensures
        polled is Pending,
        wakers.contains(waker),
        next matches Poll::Ready(Some(yielded)) && cloned(value, yielded),
{
    exact::law_stream_exact(
        StreamView::Next,
        emitter@,
        emitter@.open,
        waker,
        polled,
        stream,
        listening@,
        0,
    );
    let i = emitter@.listeners.len() as int;
    assert(listening@.listeners[i].waker == Some(waker));
    assert(exact::distinct(listening@)) by {
        assert forall|j: int, k: int| 0 <= j < k < listening@.listeners.len() implies (
        #[trigger] listening@.listeners[j]).id != (#[trigger] listening@.listeners[k]).id by {
            assert(emitter@.listeners[j].id < emitter@.next_id);
        }
    }
    law_emitted_is_yielded(listening, i, value, after, wakers, again, next, last_stream, last);
}

/// An emitter that is in order sends a value at any time and takes one more subscriber whenever
/// there is a number for it.
pub proof fn law_emitter_can<T: Clone>(emitter: Emitter<T>)
    ensures
        emitter.can_emit() <==> emitter.wf(),
        emitter.can_subscribe() <==> emitter.wf() && emitter@.next_id < usize::MAX,
{
}

/// Whatever happens to a listener and in whatever order, its stream and its callback stay the ones
/// that it has, and it is done exactly when it was done to begin with, when its stream has ended or
/// when its callback has had enough. So nothing makes a listener that is done go on.
pub proof fn law_listener_stays_done<T, F, D>(
    listener: ListenerView<T, F>,
    events: Seq<ListenerEvent<D>>,
)
    ensures
        ({
            let after = listener_after(listener, events);
            &&& after.stream == listener.stream
            &&& after.map == listener.map
            &&& after.done <==> listener.done || exists|i: int|
                0 <= i < events.len() && (#[trigger] events[i] == ListenerEvent::<D>::Polled(
                    Poll::Ready(None),
                ) || events[i] == ListenerEvent::<D>::Called(false))
        }),
    decreases events.len(),
{
    if events.len() > 0 {
        let before = events.drop_last();
        law_listener_stays_done(listener, before);
        let ends = |event: ListenerEvent<D>|
            event == ListenerEvent::<D>::Polled(Poll::Ready(None)) || event == ListenerEvent::<
                D,
            >::Called(false);
        assert(events[events.len() - 1] == events.last());
        assert forall|i: int| 0 <= i < before.len() implies #[trigger] events[i] == before[i] by {}
        if exists|i: int| 0 <= i < before.len() && ends(#[trigger] before[i]) {
            let i = choose|i: int| 0 <= i < before.len() && ends(#[trigger] before[i]);
            assert(ends(events[i]));
        }
        if exists|i: int| 0 <= i < events.len() && ends(#[trigger] events[i]) {
            let i = choose|i: int| 0 <= i < events.len() && ends(#[trigger] events[i]);
            if i < before.len() {
                assert(ends(before[i]));
            }
        }
    }
}

/// What a listener asks for once its stream has been polled follows from the result alone: it asks
/// to call the callback exactly with an item, and comes to an end exactly without one, for good
/// only if the stream has ended.
pub proof fn law_listener_asks<T, F, D>(
    listener: ListenerView<T, F>,
    polled: Poll<Option<D>>,
    data: D,
)
    ensures
        listener.poll_step(polled) == ListenerStep::Call(data) <==> polled == Poll::Ready(
            Some(data),
        ),
        listener.poll_step(polled) == ListenerStep::<D>::Return(Poll::Ready(())) <==> polled
            == Poll::Ready(None::<D>),
        listener.poll_step(polled) == ListenerStep::<D>::Return(Poll::Pending) <==> polled
            == Poll::<Option<D>>::Pending,
        listener.next_step::<D>() == ListenerStep::<D>::Return(Poll::Ready(())) <==> listener.done,
        listener.next_step::<D>() == ListenerStep::<D>::PollStream <==> !listener.done,
{
}

} // verus!
