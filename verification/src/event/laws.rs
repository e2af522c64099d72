//! What holds of events as a whole.
use core::task::Waker;

use vstd::prelude::*;

use super::{entries, EventView, ListenerEntry};

verus! {

/// What `notifies` says of the number of listeners that wait afterwards.
pub(super) proof fn lemma_waiting_after<T>(
    before: EventView<T>,
    k: nat,
    is_tag: spec_fn(T) -> bool,
    after: EventView<T>,
)
    requires
        before.notifies(k, is_tag, after),
    ensures
        entries::waiting(after.listeners) == (if entries::waiting(before.listeners) <= k {
            0
        } else {
            entries::waiting(before.listeners) - k
        }),
        entries::waiting(before.listeners) <= before.listeners.len(),
{
    let n = before.listeners.len() as int;
    entries::lemma_notified_after(before.listeners, after.listeners, k, n);
    entries::lemma_waiting_bound(before.listeners);
    assert(before.listeners.take(n) =~= before.listeners);
    assert(after.listeners.take(n) =~= after.listeners);
}

/// There are no more listeners than numbers have been given out.
proof fn lemma_len<T>(event: EventView<T>, n: int)
    requires
        event.wf(),
        0 <= n <= event.listeners.len(),
    ensures
        n <= event.next_id,
        n > 0 ==> n <= event.listeners[n - 1].id + 1,
    decreases n,
{
    if n > 0 {
        lemma_len(event, n - 1);
        if n > 1 {
            assert(event.listeners[n - 2].id < event.listeners[n - 1].id);
        }
    }
}

/// A notification for `usize::MAX` listeners leaves every listener notified.
pub proof fn law_notify_all<T>(
    before: EventView<T>,
    additional: bool,
    is_tag: spec_fn(T) -> bool,
    after: EventView<T>,
)
    requires
        before.notifies(before.quota(usize::MAX, additional), is_tag, after),
    ensures
        forall|i: int|
            0 <= i < after.listeners.len() ==> (#[trigger] after.listeners[i]).value is Some,
{
    assert forall|i: int| 0 <= i < after.listeners.len() implies (
    #[trigger] after.listeners[i]).value is Some by {
        entries::lemma_waiting_bound(before.listeners.take(i));
    }
}

/// After a notification for `n` listeners, `n` listeners hold a notification, or all of them
/// if there are fewer; if more than `n` did before, they still do.
pub proof fn law_notify_count<T>(
    before: EventView<T>,
    n: usize,
    is_tag: spec_fn(T) -> bool,
    after: EventView<T>,
)
    requires
        before.wf(),
        before.notifies(before.quota(n, false), is_tag, after),
    ensures
        entries::notified_count(after.listeners) == (if n <= entries::notified_count(
            before.listeners,
        ) {
            entries::notified_count(before.listeners)
        } else if n <= before.listeners.len() {
            n as int
        } else {
            before.listeners.len() as int
        }),
{
    lemma_len(before, before.listeners.len() as int);
    lemma_waiting_after(before, before.quota(n, false), is_tag, after);
}

/// An additional notification for `n` listeners notifies `n` listeners that held no
/// notification, or all of those if there are fewer.
pub proof fn law_notify_additional_count<T>(
    before: EventView<T>,
    n: usize,
    is_tag: spec_fn(T) -> bool,
    after: EventView<T>,
)
    requires
        before.wf(),
        before.notifies(before.quota(n, true), is_tag, after),
    ensures
        entries::notified_count(after.listeners) - entries::notified_count(before.listeners) == (
        if n <= entries::waiting(before.listeners) {
            n as int
        } else {
            entries::waiting(before.listeners) as int
        }),
{
    lemma_len(before, before.listeners.len() as int);
    lemma_waiting_after(before, before.quota(n, true), is_tag, after);
}

/// Listeners are notified in the order of registration: if a notification reaches a waiting
/// listener, it also reaches every earlier one that waits.
pub proof fn law_notify_earliest<T>(
    before: EventView<T>,
    k: nat,
    is_tag: spec_fn(T) -> bool,
    after: EventView<T>,
    i: int,
    j: int,
)
    requires
        before.notifies(k, is_tag, after),
        0 <= i < j < before.listeners.len(),
        before.listeners[i].value is None,
        before.listeners[j].value is None,
        after.listeners[j].value is Some,
    ensures
        after.listeners[i].value is Some,
{
    entries::lemma_waiting_take(before.listeners, i, j);
    assert(after.listeners[i].id == before.listeners[i].id);
}

/// A notification that a listener already holds is never replaced.
pub proof fn law_notify_keeps<T>(
    before: EventView<T>,
    k: nat,
    is_tag: spec_fn(T) -> bool,
    after: EventView<T>,
    i: int,
)
    requires
        before.notifies(k, is_tag, after),
        0 <= i < before.listeners.len(),
        before.listeners[i].value is Some,
    ensures
        after.listeners[i] == before.listeners[i],
{
}

/// Every newly notified listener whose task waits has that task woken.
pub proof fn law_notified_are_woken<T>(s: Seq<ListenerEntry<T>>, k: nat, i: int)
    requires
        0 <= i < s.len(),
        entries::chosen(s, k, i),
        s[i].waker is Some,
    ensures
        entries::chosen_wakers(s, k).contains(s[i].waker->0),
    decreases s.len(),
{
    let last = s.len() - 1;
    if i == last {
        let woken = entries::chosen_wakers(s, k);
        assert(s.take(i) =~= s.drop_last());
        assert(woken[woken.len() - 1] == s[i].waker->0);
    } else {
        assert(s.drop_last().take(i) =~= s.take(i));
        assert(s.drop_last()[i] == s[i]);
        law_notified_are_woken(s.drop_last(), k, i);
        let before = entries::chosen_wakers(s.drop_last(), k);
        let at = choose|at: int| 0 <= at < before.len() && before[at] == s[i].waker->0;
        assert(entries::chosen_wakers(s, k)[at] == s[i].waker->0);
    }
}

/// Only tasks of newly notified listeners are woken.
pub proof fn law_woken_are_notified<T>(s: Seq<ListenerEntry<T>>, k: nat, waker: Waker)
    requires
        entries::chosen_wakers(s, k).contains(waker),
    ensures
        exists|i: int|
            0 <= i < s.len() && #[trigger] entries::chosen(s, k, i) && s[i].waker == Some(waker),
    decreases s.len(),
{
    if s.len() > 0 {
        let last = s.len() - 1;
        let before = entries::chosen_wakers(s.drop_last(), k);
        assert(s.take(last) =~= s.drop_last());
        let woken = entries::chosen_wakers(s, k);
        let at = choose|at: int| 0 <= at < woken.len() && woken[at] == waker;
        if at < before.len() {
            assert(before[at] == waker);
            law_woken_are_notified(s.drop_last(), k, waker);
            let i = choose|i: int|
                0 <= i < s.drop_last().len() && #[trigger] entries::chosen(s.drop_last(), k, i)
                    && s.drop_last()[i].waker == Some(waker);
            assert(s.drop_last().take(i) =~= s.take(i));
            assert(entries::chosen(s, k, i));
        } else {
            assert(entries::chosen(s, k, last));
        }
    }
}

/// Letting go of an event wakes every task that waits for it.
pub proof fn law_close_wakes_all<T>(s: Seq<ListenerEntry<T>>, i: int)
    requires
        0 <= i < s.len(),
        s[i].waker is Some,
    ensures
        entries::all_wakers(s).contains(s[i].waker->0),
    decreases s.len(),
{
    let all = entries::all_wakers(s);
    if i == s.len() - 1 {
        assert(all[all.len() - 1] == s[i].waker->0);
    } else {
        law_close_wakes_all(s.drop_last(), i);
        let before = entries::all_wakers(s.drop_last());
        let at = choose|at: int| 0 <= at < before.len() && before[at] == s[i].waker->0;
        assert(all[at] == s[i].waker->0);
    }
}

/// A new listener holds no notification and stands behind all others.
pub proof fn law_listen<T>(event: EventView<T>)
    requires
        event.wf(),
        event.next_id < usize::MAX,
    ensures
        !event.has(event.next_id),
        event.with_listener(None).has(event.next_id),
        !event.with_listener(None).is_notified(event.next_id),
        event.with_listener(None).position(event.next_id) == event.listeners.len(),
        entries::notified_count(event.with_listener(None).listeners) == entries::notified_count(
            event.listeners,
        ),
{
    let after = event.with_listener(None);
    super::lemma_position(after, event.listeners.len() as int);
    assert(after.listeners.drop_last() =~= event.listeners);
}

/// A listener stays registered until it is given back itself: whatever the other listeners do,
/// and whatever happens to the event.
pub proof fn law_stays_registered(
    event: EventView<()>,
    id: usize,
    other: usize,
    n: usize,
    waker: Waker,
)
    requires
        event.wf(),
        event.has(id),
    ensures
        event.with_listener(Some(waker)).has(id),
        event.signaled(n).has(id),
        event.closed().has(id),
        event.has(other) ==> event.with_waker(other, waker).has(id),
        event.has(other) ==> event.taken(other).has(id),
        other != id && event.has(other) ==> event.without(other).has(id),
        other != id ==> event.dropped(other).has(id),
{
    let i = event.position(id);
    let at = event.position(other);
    assert(event.with_listener(Some(waker)).listeners[i].id == id);
    assert(event.signaled(n).listeners[i].id == id);
    assert(event.closed().listeners[i].id == id);
    if event.has(other) {
        assert(event.with_waker(other, waker).listeners[i].id == id);
        assert(event.taken(other).listeners[i].id == id);
        if other != id {
            let j = if i < at {
                i
            } else {
                i - 1
            };
            entries::lemma_first_waiting(event.without(other).listeners);
            assert(event.without(other).listeners[j].id == id);
            assert(event.dropped(other).listeners[j].id == id);
        }
    }
}

/// A notification is taken once: after it the listener waits again, and everything else is as
/// it was.
pub proof fn law_taken_once<T>(event: EventView<T>, id: usize)
    requires
        event.wf(),
        event.is_notified(id),
    ensures
        event.taken(id).has(id),
        !event.taken(id).is_notified(id),
        entries::notified_count(event.taken(id).listeners) == entries::notified_count(
            event.listeners,
        ) - 1,
        forall|other: usize|
            other != id && event.has(other) ==> event.taken(id).has(other)
                && #[trigger] event.taken(id).entry(other) == event.entry(other),
{
    let at = event.position(id);
    let after = event.taken(id);
    super::lemma_position(after, at);
    entries::lemma_waiting_update(event.listeners, at, after.listeners[at]);
    assert forall|other: usize| other != id && event.has(other) implies after.has(other)
        && #[trigger] after.entry(other) == event.entry(other) by {
        super::lemma_position(after, event.position(other));
    }
}

/// No notification is lost when a notified listener is given back while another listener
/// waits: as many listeners hold a notification as before, and the earliest one that waited
/// holds the one given back.
pub proof fn law_dropped_hands_on<T>(event: EventView<T>, id: usize, next: usize)
    requires
        event.wf(),
        event.is_notified(id),
        event.has(next),
        event.entry(next).value is None,
        forall|other: usize|
            #[trigger] event.has(other) && other < next ==> event.is_notified(other),
    ensures
        entries::notified_count(event.dropped(id).listeners) == entries::notified_count(
            event.listeners,
        ),
        !event.dropped(id).has(id),
        event.dropped(id).has(next),
        event.dropped(id).entry(next).value == event.entry(id).value,
        event.dropped_wakers(id) == (match event.entry(next).waker {
            Some(waker) => seq![waker],
            None => Seq::empty(),
        }),
{
    let rest = event.without(id);
    let at = event.position(id);
    let p = event.position(next);
    let q = if p < at {
        p
    } else {
        p - 1
    };
    assert(rest.listeners[q] == event.listeners[p]);
    entries::lemma_first_waiting(rest.listeners);
    let first = entries::first_waiting(rest.listeners);
    assert forall|i: int| 0 <= i < q implies (#[trigger] rest.listeners[i]).value is Some by {
        let j = if i < at {
            i
        } else {
            i + 1
        };
        assert(rest.listeners[i] == event.listeners[j]);
        super::lemma_position(event, j);
        assert(event.has(event.listeners[j].id));
    }
    assert(first == q);
    let after = event.dropped(id);
    entries::lemma_waiting_remove(event.listeners, at);
    entries::lemma_waiting_update(rest.listeners, first, after.listeners[first]);
    assert(after.wf());
    super::lemma_position(after, q);
    assert forall|i: int| 0 <= i < after.listeners.len() implies (
    #[trigger] after.listeners[i]).id != id by {
        assert(after.listeners[i].id == rest.listeners[i].id);
        assert(rest.listeners[i] == event.listeners[if i < at {
            i
        } else {
            i + 1
        }]);
    }
}

/// Giving back a listener that holds no notification changes nothing for the others.
pub proof fn law_dropped_waiting<T>(event: EventView<T>, id: usize, other: usize)
    requires
        event.wf(),
        event.has(id),
        event.entry(id).value is None,
        event.has(other),
        other != id,
    ensures
        event.dropped(id).has(other),
        event.dropped(id).entry(other) == event.entry(other),
        event.dropped_wakers(id) == Seq::<Waker>::empty(),
{
    let at = event.position(id);
    let p = event.position(other);
    let after = event.dropped(id);
    assert(after.wf());
    super::lemma_position(after, if p < at {
        p
    } else {
        p - 1
    });
}

/// While nobody holds a notification, a notification for one listener reaches the earliest
/// one and wakes its task, and nobody else.
pub proof fn law_signal_one(event: EventView<()>)
    requires
        event.wf(),
        event.listeners.len() > 0,
        entries::notified_count(event.listeners) == 0,
    ensures
        event.signaled(1).listeners == event.listeners.update(
            0,
            ListenerEntry { id: event.listeners[0].id, waker: None, value: Some(()) },
        ),
        event.signaled_wakers(1) == (match event.listeners[0].waker {
            Some(waker) => seq![waker],
            None => Seq::empty(),
        }),
{
    let s = event.listeners;
    entries::lemma_none_notified(s);
    assert(s.take(0) =~= Seq::empty());
    assert(s.take(1).drop_last() =~= Seq::empty());
    assert(s.take(1).take(0) =~= Seq::empty());
    assert(entries::waiting(s.take(1)) == 1) by {
        reveal_with_fuel(entries::waiting, 2);
    }
    assert forall|i: int| 0 < i < s.len() implies !entries::chosen(s, 1, i) by {
        entries::lemma_waiting_take(s, 1, i);
    }
    assert(event.signaled(1).listeners =~= event.listeners.update(
        0,
        ListenerEntry { id: event.listeners[0].id, waker: None, value: Some(()) },
    ));
    entries::lemma_chosen_wakers_stop(s, 1, 1, s.len() as int);
    assert(s.take(s.len() as int) =~= s);
    reveal_with_fuel(entries::chosen_wakers, 2);
    assert(event.signaled_wakers(1) =~= (match s[0].waker {
        Some(waker) => seq![waker],
        None => Seq::empty(),
    }));
}

/// A notification for all listeners reaches each of them and wakes its task if it waits.
pub proof fn law_signal_all(event: EventView<()>, id: usize)
    requires
        event.wf(),
        event.has(id),
    ensures
        event.signaled(usize::MAX).is_notified(id),
        event.entry(id).waker matches Some(waker) ==> event.signaled_wakers(usize::MAX).contains(
            waker,
        ),
{
    let i = event.position(id);
    let after = event.signaled(usize::MAX);
    entries::lemma_waiting_bound(event.listeners.take(i));
    assert(after.wf()) by {
        assert forall|j: int, k: int| 0 <= j < k < after.listeners.len() implies
            #[trigger] after.listeners[j].id < #[trigger] after.listeners[k].id by {
            assert(event.listeners[j].id < event.listeners[k].id);
        }
        assert forall|j: int| 0 <= j < after.listeners.len() implies (
        #[trigger] after.listeners[j]).id < after.next_id by {
            assert(event.listeners[j].id < event.next_id);
        }
        assert forall|j: int|
            0 <= j < after.listeners.len() && (
            #[trigger] after.listeners[j]).value is Some implies
            after.listeners[j].waker is None by {
            assert(event.listeners[j].value is Some ==> event.listeners[j].waker is None);
        }
    }
    super::lemma_position(after, i);
    if event.listeners[i].waker is Some {
        law_notified_are_woken(event.listeners, event.quota(usize::MAX, false), i);
    }
}

/// Whether someone holds a notification, if anyone listens at all.
pub open spec fn attended<T>(event: EventView<T>) -> bool {
    event.listeners.len() > 0 ==> entries::notified_count(event.listeners) > 0
}

/// After a notification for one listener, someone holds a notification if anyone listens.
pub proof fn law_signal_attends(event: EventView<()>)
    requires
        event.wf(),
    ensures
        attended(event.signaled(1)),
{
    let is_tag = |tag: ()| true;
    let k = event.quota(1, false);
    assert(event.notifies(k, is_tag, event.signaled(1)));
    law_notify_count(event, 1, is_tag, event.signaled(1));
    entries::lemma_waiting_bound(event.listeners);
}

/// A listener that goes on waiting does not change whether someone holds a notification.
pub proof fn law_waiting_attends<T>(event: EventView<T>, id: usize, waker: Waker)
    requires
        event.wf(),
        event.has(id),
        attended(event),
    ensures
        attended(event.with_waker(id, waker)),
{
    let at = event.position(id);
    entries::lemma_waiting_update(
        event.listeners,
        at,
        ListenerEntry { waker: Some(waker), ..event.entry(id) },
    );
}

/// Giving a listener back never leaves others waiting with nobody notified.
pub proof fn law_dropped_attends<T>(event: EventView<T>, id: usize)
    requires
        event.wf(),
        attended(event),
    ensures
        attended(event.dropped(id)),
{
    if event.has(id) {
        let at = event.position(id);
        let rest = event.without(id).listeners;
        entries::lemma_waiting_remove(event.listeners, at);
        entries::lemma_first_waiting(rest);
        if event.hands_on(id) {
            let first = entries::first_waiting(rest);
            entries::lemma_waiting_update(rest, first, event.dropped(id).listeners[first]);
            entries::lemma_waiting_bound(event.listeners);
        } else if event.is_notified(id) {
            entries::lemma_all_notified(rest);
        }
    }
}

/// A notification for one listener reaches the only listener there is.
pub proof fn law_signal_sole(event: EventView<()>, id: usize)
    requires
        event.listeners.len() == 1,
        event.has(id),
    ensures
        event.signaled(1).listeners.len() == 1,
        event.signaled(1).is_notified(id),
        event.entry(id).value is None ==> event.signaled_wakers(1) == (match event.entry(id).waker {
            Some(waker) => seq![waker],
            None => Seq::empty(),
        }),
{
    let s = event.listeners;
    assert(event.position(id) == 0);
    assert(s.drop_last() =~= Seq::empty());
    assert(s.take(0) =~= Seq::empty());
    assert(entries::waiting(s) == (if s[0].value is None {
        1int
    } else {
        0
    })) by {
        reveal_with_fuel(entries::waiting, 2);
    }
    let after = event.signaled(1);
    assert(after.listeners[0].id == id);
    assert(after.listeners[0].value is Some);
    if s[0].value is None {
        reveal_with_fuel(entries::chosen_wakers, 2);
        assert(event.signaled_wakers(1) =~= (match s[0].waker {
            Some(waker) => seq![waker],
            None => Seq::empty(),
        }));
    }
}

} // verus!
