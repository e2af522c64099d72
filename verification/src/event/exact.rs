//! What each operation on an event does, listener by listener.
use core::task::{Poll, Waker};

use vstd::prelude::*;

use super::{
    entries, AddtionalNotification, EventView, ListenerEntry, Notification, StreamView,
    WithNotification,
};

verus! {

/// Whether no two listeners have the same number.
pub open spec fn distinct<T>(event: EventView<T>) -> bool {
    forall|i: int, j: int|
        0 <= i < j < event.listeners.len() ==> (#[trigger] event.listeners[i]).id != (
        #[trigger] event.listeners[j]).id
}

/// How many of the listeners hold a notification.
pub open spec fn held<T>(s: Seq<ListenerEntry<T>>) -> int
    decreases s.len(),
{
    if s.len() == 0 {
        0
    } else {
        held(s.drop_last()) + if s.last().value is Some {
            1int
        } else {
            0int
        }
    }
}

/// Whether `wakers` are exactly the wakers, in the order of registration, of the listeners that
/// stand at `at`, each of which had one.
pub open spec fn wakers_at<T>(s: Seq<ListenerEntry<T>>, wakers: Seq<Waker>, at: Seq<int>) -> bool {
    &&& wakers.len() == at.len()
    &&& forall|n: int| 0 <= n < at.len() ==> 0 <= #[trigger] at[n] < s.len()
    &&& forall|m: int, n: int| 0 <= m < n < at.len() ==> #[trigger] at[m] < #[trigger] at[n]
    &&& forall|n: int| 0 <= n < at.len() ==> s[#[trigger] at[n]].waker == Some(wakers[n])
}

pub(crate) proof fn lemma_held<T>(s: Seq<ListenerEntry<T>>)
    ensures
        held(s) == entries::notified_count(s),
        0 <= held(s) <= s.len(),
    decreases s.len(),
{
    if s.len() > 0 {
        lemma_held(s.drop_last());
    }
}

proof fn lemma_chosen_at<T>(s: Seq<ListenerEntry<T>>, k: nat) -> (at: Seq<int>)
    ensures
        wakers_at(s, entries::chosen_wakers(s, k), at),
        forall|i: int|
            0 <= i < s.len() ==> (at.contains(i) <==> #[trigger] entries::chosen(s, k, i)
                && s[i].waker is Some),
    decreases s.len(),
{
    if s.len() == 0 {
        Seq::empty()
    } else {
        let last = s.len() - 1;
        let before = lemma_chosen_at(s.drop_last(), k);
        let at = if entries::chosen(s, k, last) && s[last].waker is Some {
            before.push(last)
        } else {
            before
        };
        assert(s.take(last) =~= s.drop_last());
        assert forall|i: int| 0 <= i < s.len() implies (at.contains(i) <==> #[trigger]
        entries::chosen(s, k, i) && s[i].waker is Some) by {
            if i < last {
                assert(s.drop_last().take(i) =~= s.take(i));
                assert(entries::chosen(s.drop_last(), k, i) == entries::chosen(s, k, i));
                if before.contains(i) {
                    let n = before.index_of(i);
                    assert(at[n] == i);
                }
                if at.contains(i) {
                    let n = at.index_of(i);
                    assert(before[n] == i);
                }
            } else {
                if at.contains(i) && !(entries::chosen(s, k, last) && s[last].waker is Some) {
                    let n = at.index_of(i);
                    assert(before[n] == i);
                }
                if entries::chosen(s, k, last) && s[last].waker is Some {
                    assert(at[before.len() as int] == last);
                }
            }
        }
        at
    }
}

proof fn lemma_all_at<T>(s: Seq<ListenerEntry<T>>) -> (at: Seq<int>)
    ensures
        wakers_at(s, entries::all_wakers(s), at),
        forall|i: int| 0 <= i < s.len() ==> (at.contains(i) <==> (#[trigger] s[i]).waker is Some),
    decreases s.len(),
{
    if s.len() == 0 {
        Seq::empty()
    } else {
        let last = s.len() - 1;
        let before = lemma_all_at(s.drop_last());
        let at = if s[last].waker is Some {
            before.push(last)
        } else {
            before
        };
        assert forall|i: int| 0 <= i < s.len() implies (at.contains(i) <==> (
        #[trigger] s[i]).waker is Some) by {
            if i < last {
                assert(s.drop_last()[i] == s[i]);
                if before.contains(i) {
                    let n = before.index_of(i);
                    assert(at[n] == i);
                }
                if at.contains(i) {
                    let n = at.index_of(i);
                    assert(before[n] == i);
                }
            } else {
                if at.contains(i) && s[last].waker is None {
                    let n = at.index_of(i);
                    assert(before[n] == i);
                }
                if s[last].waker is Some {
                    assert(at[before.len() as int] == last);
                }
            }
        }
        at
    }
}

/// What a notification for `n` listeners does, whether additional or not.
///
/// - Listeners that hold a notification keep it. The others keep waiting as they are, or get one
///   that carries what it should and have no waker left. Nobody joins, leaves or is renumbered.
/// - If a waiting listener is reached, so is every earlier one that waits.
/// - With `usize::MAX` all are reached. Otherwise an additional notification reaches `n` of those
///   that wait, and any other as many as are missing to `n` listeners that hold one; or all, if
///   there are fewer.
/// - Woken are exactly the tasks that wait for the reached listeners, each once, in the order of
///   registration.
pub proof fn law_notify_exact<T>(
    before: EventView<T>,
    n: usize,
    additional: bool,
    is_tag: spec_fn(T) -> bool,
    after: EventView<T>,
    wakers: Seq<Waker>,
)
    requires
        before.notifies(before.quota(n, additional), is_tag, after),
        wakers == entries::chosen_wakers(before.listeners, before.quota(n, additional)),
    ensures
        after.next_id == before.next_id,
        after.open == before.open,
        after.listeners.len() == before.listeners.len(),
        forall|i: int|
            0 <= i < before.listeners.len() ==> {
                let was = before.listeners[i];
                let is = #[trigger] after.listeners[i];
                is == was || (was.value is None && is.id == was.id && is.waker is None && (
                is.value matches Some(tag) && is_tag(tag)))
            },
        forall|i: int, j: int|
            0 <= i < j < before.listeners.len() && (
            #[trigger] after.listeners[j]).value is Some && before.listeners[j].value is None
                ==> (#[trigger] after.listeners[i]).value is Some,
        held(after.listeners) - held(before.listeners) == ({
            let waiting = before.listeners.len() - held(before.listeners);
            let wanted = if n == usize::MAX {
                waiting
            } else if additional {
                n as int
            } else if n as int <= held(before.listeners) {
                0
            } else {
                n - held(before.listeners)
            };
            if wanted <= waiting {
                wanted
            } else {
                waiting
            }
        }),
        exists|at: Seq<int>|
            #[trigger] wakers_at(before.listeners, wakers, at) && forall|i: int|
                0 <= i < before.listeners.len() ==> (at.contains(i) <==> (
                #[trigger] before.listeners[i]).value is None && before.listeners[i].waker is Some
                    && after.listeners[i].value is Some),
{
    let k = before.quota(n, additional);
    super::laws::lemma_waiting_after(before, k, is_tag, after);
    lemma_held(before.listeners);
    lemma_held(after.listeners);
    assert forall|i: int, j: int|
        0 <= i < j < before.listeners.len() && (
        #[trigger] after.listeners[j]).value is Some && before.listeners[j].value is None implies (
    #[trigger] after.listeners[i]).value is Some by {
        entries::lemma_waiting_take(before.listeners, i, j);
    }
    let at = lemma_chosen_at(before.listeners, k);
    assert forall|i: int| 0 <= i < before.listeners.len() implies (at.contains(i) <==> (
    #[trigger] before.listeners[i]).value is None && before.listeners[i].waker is Some
        && after.listeners[i].value is Some) by {
        assert(entries::chosen(before.listeners, k, i) || after.listeners[i]
            == before.listeners[i]);
    }
    assert(wakers_at(before.listeners, wakers, at));
}

/// The same of a notification that carries nothing.
pub proof fn law_signal_exact(event: EventView<()>, n: usize)
    ensures
        ({
            let after = event.signaled(n);
            let wakers = event.signaled_wakers(n);
            &&& after.next_id == event.next_id
            &&& after.open == event.open
            &&& after.listeners.len() == event.listeners.len()
            &&& forall|i: int|
                0 <= i < event.listeners.len() ==> {
                    let was = event.listeners[i];
                    let is = #[trigger] after.listeners[i];
                    is == was || (was.value is None && is == (ListenerEntry {
                        waker: None,
                        value: Some(()),
                        ..was
                    }))
                }
            &&& forall|i: int, j: int|
                0 <= i < j < event.listeners.len() && (
                #[trigger] after.listeners[j]).value is Some && event.listeners[j].value is None
                    ==> (#[trigger] after.listeners[i]).value is Some
            &&& held(after.listeners) == (if n == usize::MAX {
                event.listeners.len() as int
            } else if n as int <= held(event.listeners) {
                held(event.listeners)
            } else if n as int <= event.listeners.len() {
                n as int
            } else {
                event.listeners.len() as int
            })
            &&& exists|at: Seq<int>|
                #[trigger] wakers_at(event.listeners, wakers, at) && forall|i: int|
                    0 <= i < event.listeners.len() ==> (at.contains(i) <==> (
                    #[trigger] event.listeners[i]).value is None
                        && event.listeners[i].waker is Some && after.listeners[i].value is Some)
        }),
{
    let is_tag = |tag: ()| true;
    let after = event.signaled(n);
    let k = event.quota(n, false);
    assert(event.notifies(k, is_tag, after));
    law_notify_exact(event, n, false, is_tag, after, event.signaled_wakers(n));
    lemma_held(event.listeners);
}

/// Who is notified next when one listener is to be: nobody, if someone holds a notification
/// already; otherwise the earliest listener, if there is one, whose task alone is woken.
pub proof fn law_signal_next(event: EventView<()>)
    ensures
        (exists|i: int|
            0 <= i < event.listeners.len() && (#[trigger] event.listeners[i]).value is Some)
            ==> event.signaled(1) == event && event.signaled_wakers(1).len() == 0,
        event.listeners.len() == 0 ==> event.signaled(1) == event && event.signaled_wakers(1).len()
            == 0,
        event.listeners.len() > 0 && (forall|i: int|
            0 <= i < event.listeners.len() ==> (#[trigger] event.listeners[i]).value is None) ==> {
            &&& event.signaled(1) == (EventView {
                listeners: event.listeners.update(
                    0,
                    ListenerEntry { waker: None, value: Some(()), ..event.listeners[0] },
                ),
                ..event
            })
            &&& event.signaled_wakers(1) == (match event.listeners[0].waker {
                Some(waker) => seq![waker],
                None => Seq::empty(),
            })
        },
{
    let s = event.listeners;
    let after = event.signaled(1);
    let wakers = event.signaled_wakers(1);
    lemma_held(s);
    lemma_held(after.listeners);
    law_signal_exact(event, 1);
    let at = choose|at: Seq<int>|
        #[trigger] wakers_at(s, wakers, at) && forall|i: int|
            0 <= i < s.len() ==> (at.contains(i) <==> (#[trigger] s[i]).value is None
                && s[i].waker is Some && after.listeners[i].value is Some);
    if exists|i: int| 0 <= i < s.len() && (#[trigger] s[i]).value is Some {
        let i = choose|i: int| 0 <= i < s.len() && (#[trigger] s[i]).value is Some;
        lemma_held_at(s, i);
        lemma_held_same(s, after.listeners);
        assert(after.listeners =~= s);
        if at.len() > 0 {
            assert(at.contains(at[0]));
            assert(s[at[0]].value is None);
        }
    } else if s.len() > 0 {
        lemma_held_none(s);
        lemma_held_one(s, after.listeners);
        assert(after.listeners =~= s.update(
            0,
            ListenerEntry { waker: None, value: Some(()), ..s[0] },
        ));
        assert forall|n: int| 0 <= n < at.len() implies #[trigger] at[n] == 0 by {
            assert(at.contains(at[n]));
            assert(s[at[n]].value is None);
        }
        assert(at.len() <= 1) by {
            if at.len() > 1 {
                assert(at[0] < at[1]);
            }
        }
        if s[0].waker is Some {
            assert(at.contains(0));
        } else if at.len() > 0 {
            assert(at.contains(at[0]));
            assert(s[at[0]].value is None);
        }
        assert(wakers =~= (match s[0].waker {
            Some(waker) => seq![waker],
            None => Seq::empty(),
        }));
    } else {
        assert(after.listeners =~= s);
        if at.len() > 0 {
            assert(0 <= at[0] < s.len());
        }
    }
}

proof fn lemma_held_at<T>(s: Seq<ListenerEntry<T>>, i: int)
    requires
        0 <= i < s.len(),
        s[i].value is Some,
    ensures
        held(s) >= 1,
    decreases s.len(),
{
    lemma_held(s.drop_last());
    if i < s.len() - 1 {
        lemma_held_at(s.drop_last(), i);
    }
}

proof fn lemma_held_none<T>(s: Seq<ListenerEntry<T>>)
    requires
        forall|i: int| 0 <= i < s.len() ==> (#[trigger] s[i]).value is None,
    ensures
        held(s) == 0,
    decreases s.len(),
{
    if s.len() > 0 {
        assert forall|i: int| 0 <= i < s.drop_last().len() implies (
        #[trigger] s.drop_last()[i]).value is None by {
            assert(s[i].value is None);
        }
        lemma_held_none(s.drop_last());
    }
}

/// If nobody gives a notification up and as many are held as before, nothing has changed hands.
proof fn lemma_held_same<T>(s: Seq<ListenerEntry<T>>, t: Seq<ListenerEntry<T>>)
    requires
        s.len() == t.len(),
        forall|i: int|
            0 <= i < s.len() ==> #[trigger] t[i] == s[i] || (s[i].value is None
                && t[i].value is Some),
    ensures
        held(s) <= held(t),
        held(s) == held(t) ==> t == s,
    decreases s.len(),
{
    if s.len() > 0 {
        assert forall|i: int| 0 <= i < s.len() - 1 implies #[trigger] t.drop_last()[i]
            == s.drop_last()[i] || (s.drop_last()[i].value is None
            && t.drop_last()[i].value is Some) by {
            assert(t[i] == s[i] || (s[i].value is None && t[i].value is Some));
        }
        lemma_held_same(s.drop_last(), t.drop_last());
        let last = s.len() - 1;
        assert(t[last] == s[last] || (s[last].value is None && t[last].value is Some));
        if held(s) == held(t) {
            assert(t =~= s) by {
                assert forall|i: int| 0 <= i < s.len() implies t[i] == s[i] by {
                    if i < last {
                        assert(t.drop_last()[i] == s.drop_last()[i]);
                    }
                }
            }
        }
    } else {
        assert(t =~= s);
    }
}

/// If nobody held a notification, one does now, and the earliest come first, it is the first.
proof fn lemma_held_one<T>(s: Seq<ListenerEntry<T>>, t: Seq<ListenerEntry<T>>)
    requires
        s.len() == t.len(),
        s.len() > 0,
        held(t) == 1,
        forall|i: int| 0 <= i < s.len() ==> (#[trigger] s[i]).value is None,
        forall|i: int|
            0 <= i < s.len() ==> #[trigger] t[i] == s[i] || (s[i].value is None
                && t[i].value is Some),
        forall|i: int, j: int|
            0 <= i < j < s.len() && (#[trigger] t[j]).value is Some ==> (
            #[trigger] t[i]).value is Some,
    ensures
        t[0].value is Some,
        forall|i: int| 0 < i < s.len() ==> #[trigger] t[i] == s[i],
{
    if t[0].value is None {
        assert forall|i: int| 0 <= i < t.len() implies (#[trigger] t[i]).value is None by {
            if t[i].value is Some {
                assert(t[0].value is Some);
            }
        }
        lemma_held_none(t);
    }
    assert forall|i: int| 0 < i < s.len() implies #[trigger] t[i] == s[i] by {
        if t[i].value is Some {
            lemma_held_two(t, 0, i);
        }
    }
}

proof fn lemma_held_two<T>(s: Seq<ListenerEntry<T>>, i: int, j: int)
    requires
        0 <= i < j < s.len(),
        s[i].value is Some,
        s[j].value is Some,
    ensures
        held(s) >= 2,
    decreases s.len(),
{
    lemma_held(s.drop_last());
    if j < s.len() - 1 {
        lemma_held_two(s.drop_last(), i, j);
    } else {
        lemma_held_at(s.drop_last(), i);
    }
}

/// A task that waits is woken by whatever notification reaches its listener.
pub proof fn law_reached_is_woken(event: EventView<()>, n: usize, i: int, waker: Waker)
    requires
        0 <= i < event.listeners.len(),
        event.listeners[i].value is None,
        event.listeners[i].waker == Some(waker),
        event.signaled(n).listeners[i].value is Some,
    ensures
        event.signaled_wakers(n).contains(waker),
{
    law_signal_exact(event, n);
    let after = event.signaled(n);
    let wakers = event.signaled_wakers(n);
    let at = choose|at: Seq<int>|
        #[trigger] wakers_at(event.listeners, wakers, at) && forall|i: int|
            0 <= i < event.listeners.len() ==> (at.contains(i) <==> (
            #[trigger] event.listeners[i]).value is None && event.listeners[i].waker is Some
                && after.listeners[i].value is Some);
    assert(at.contains(i));
    let m = at.index_of(i);
    assert(at[m] == i);
    assert(wakers[m] == waker);
}

/// What the numbers of listeners stand for, and what becomes of a listener that takes its
/// notification, waits or is removed: that one entry changes, and nothing else.
pub proof fn law_listener_exact<T>(event: EventView<T>, i: int, waker: Waker)
    requires
        distinct(event),
        0 <= i < event.listeners.len(),
    ensures
        ({
            let own = event.listeners[i];
            &&& event.has(own.id)
            &&& event.entry(own.id) == own
            &&& event.is_notified(own.id) <==> own.value is Some
            &&& event.taken(own.id) == (EventView {
                listeners: event.listeners.update(i, ListenerEntry { value: None, ..own }),
                ..event
            })
            &&& event.with_waker(own.id, waker) == (EventView {
                listeners: event.listeners.update(i, ListenerEntry { waker: Some(waker), ..own }),
                ..event
            })
            &&& event.without(own.id) == (EventView {
                listeners: event.listeners.remove(i),
                ..event
            })
        }),
{
    let id = event.listeners[i].id;
    assert(event.has(id));
    assert(event.position(id) == i);
}

/// A number that no listener has stands for nothing.
pub proof fn law_unknown_listener<T>(event: EventView<T>, id: usize)
    requires
        forall|i: int| 0 <= i < event.listeners.len() ==> (#[trigger] event.listeners[i]).id != id,
    ensures
        !event.has(id),
        !event.is_notified(id),
        event.dropped(id) == event,
        event.dropped_wakers(id).len() == 0,
{
}

/// A new listener gets the next number and stands last, with the given waker and no notification.
pub proof fn law_listen_exact<T>(event: EventView<T>, waker: Option<Waker>)
    requires
        event.next_id < usize::MAX,
    ensures
        ({
            let after = event.with_listener(waker);
            &&& after.listeners == event.listeners.push(
                ListenerEntry { id: event.next_id, waker, value: None },
            )
            &&& after.next_id == event.next_id + 1
            &&& after.open == event.open
        }),
{
}

/// What giving a listener back does: the listener is gone. If it held a notification, the earliest
/// other listener without one gets it, whose task alone is woken; otherwise nothing else happens.
pub proof fn law_dropped_exact<T>(event: EventView<T>, i: int, next: int)
    requires
        distinct(event),
        0 <= i < event.listeners.len(),
        next != i,
        0 <= next <= event.listeners.len(),
        forall|j: int|
            0 <= j < next && j != i && j < event.listeners.len() ==> (
            #[trigger] event.listeners[j]).value is Some,
        next < event.listeners.len() ==> event.listeners[next].value is None,
    ensures
        ({
            let own = event.listeners[i];
            let after = event.dropped(own.id);
            let wakers = event.dropped_wakers(own.id);
            if own.value is Some && next < event.listeners.len() {
                let heir = event.listeners[next];
                &&& after == (EventView {
                    listeners: event.listeners.update(
                        next,
                        ListenerEntry { waker: None, value: own.value, ..heir },
                    ).remove(i),
                    ..event
                })
                &&& wakers == (match heir.waker {
                    Some(waker) => seq![waker],
                    None => Seq::empty(),
                })
            } else {
                &&& after == (EventView { listeners: event.listeners.remove(i), ..event })
                &&& wakers.len() == 0
            }
        }),
{
    let own = event.listeners[i];
    assert(event.has(own.id));
    assert(event.position(own.id) == i);
    let rest = event.without(own.id).listeners;
    entries::lemma_first_waiting(rest);
    let first = entries::first_waiting(rest);
    if next < event.listeners.len() {
        let q = if next < i {
            next
        } else {
            next - 1
        };
        assert(rest[q] == event.listeners[next]);
        assert forall|j: int| 0 <= j < q implies (#[trigger] rest[j]).value is Some by {
            assert(rest[j] == event.listeners[if j < i {
                j
            } else {
                j + 1
            }]);
        }
        assert(first == q);
        if own.value is Some {
            assert(event.dropped(own.id).listeners =~= event.listeners.update(
                next,
                ListenerEntry { waker: None, value: own.value, ..event.listeners[next] },
            ).remove(i));
        }
    } else {
        assert forall|j: int| 0 <= j < rest.len() implies (#[trigger] rest[j]).value is Some by {
            assert(rest[j] == event.listeners[if j < i {
                j
            } else {
                j + 1
            }]);
        }
        if first < rest.len() {
            assert(rest[first].value is None);
        }
    }
}

/// What letting go of an event does: nobody is notified, and every task that waits is woken, each
/// once, in the order of registration.
pub proof fn law_close_exact<T>(event: EventView<T>)
    ensures
        !event.closed().open,
        event.closed().next_id == event.next_id,
        event.closed().listeners.len() == event.listeners.len(),
        forall|i: int|
            0 <= i < event.listeners.len() ==> #[trigger] event.closed().listeners[i] == (
            ListenerEntry { waker: None, ..event.listeners[i] }),
        exists|at: Seq<int>|
            #[trigger] wakers_at(event.listeners, entries::all_wakers(event.listeners), at)
                && forall|i: int|
                0 <= i < event.listeners.len() ==> (at.contains(i) <==> (
                #[trigger] event.listeners[i]).waker is Some),
{
    let at = lemma_all_at(event.listeners);
    assert(wakers_at(event.listeners, entries::all_wakers(event.listeners), at));
}

/// What a listener waits with is kept while others come and go: its waker stays, unless its
/// notification comes from one that is given back, and then its task is woken.
pub proof fn law_waker_is_kept(
    event: EventView<()>,
    i: int,
    other: int,
    waker: Waker,
    newcomer: Waker,
)
    requires
        distinct(event),
        0 <= i < event.listeners.len(),
        0 <= other < event.listeners.len(),
        i != other,
        event.listeners[i].waker == Some(waker),
        event.listeners[i].value is None,
    ensures
        ({
            let own = event.listeners[i];
            let id = event.listeners[other].id;
            let at = if i < other {
                i
            } else {
                i - 1
            };
            &&& event.with_listener(Some(newcomer)).listeners[i] == own
            &&& event.with_waker(id, newcomer).listeners[i] == own
            &&& event.taken(id).listeners[i] == own
            &&& event.without(id).listeners[at] == own
            &&& event.dropped(id).listeners[at] == own || (event.dropped(id).listeners[at] == (
            ListenerEntry { waker: None, value: Some(()), ..own }) && event.dropped_wakers(id)
                == seq![waker])
        }),
{
    let id = event.listeners[other].id;
    law_listener_exact(event, other, newcomer);
    let next = entries::first_waiting(event.without(id).listeners);
    entries::lemma_first_waiting(event.without(id).listeners);
    let at = if i < other {
        i
    } else {
        i - 1
    };
    assert(event.without(id).listeners[at] == event.listeners[i]);
    if event.hands_on(id) {
        assert(event.entry(id).value == Some(()));
        if next == at {
            assert(event.dropped_wakers(id) =~= seq![waker]);
        } else {
            assert(event.dropped(id).listeners[at] == event.listeners[i]);
        }
    } else {
        assert(event.dropped(id).listeners[at] == event.listeners[i]);
    }
}

/// A number asks for that many listeners, counting those that are notified already, and carries
/// nothing.
pub proof fn law_number_exact(n: usize, tag: ())
    ensures
        n.how_many() == n,
        !n.more(),
        n.is_tag(tag),
{
}

/// An additional notification asks for as many listeners as before and carries the same, and does
/// not count those that are notified already.
pub proof fn law_additional_exact<N: Notification>(
    notification: AddtionalNotification<N>,
    tag: N::Tag,
)
    ensures
        notification.how_many() == notification@.how_many(),
        notification.more(),
        notification.is_tag(tag) <==> notification@.is_tag(tag),
{
}

/// A notification with a value asks for the same listeners as before and carries clones of the
/// value.
pub proof fn law_with_exact<T: Clone, N: Notification>(
    notification: WithNotification<T, N>,
    tag: T,
)
    ensures
        notification.how_many() == notification@.1.how_many(),
        notification.more() == notification@.1.more(),
        notification.is_tag(tag) <==> cloned(notification@.0, tag),
{
}

/// Something keeps an event exactly when its owner holds it or anyone listens.
pub proof fn law_reachable_exact<T>(event: EventView<T>)
    ensures
        event.reachable() <==> event.open || event.listeners.len() > 0,
{
}

/// A stream does not end while its event is there: it yields a value, or it is left waiting with a
/// registered listener that holds the waker of this very poll.
pub proof fn law_stream_goes_on<T>(
    stream: StreamView,
    event: EventView<T>,
    live: bool,
    waker: Waker,
    polled: Poll<Option<T>>,
    after: StreamView,
    event_after: EventView<T>,
)
    requires
        live,
        stream != StreamView::Done,
        stream matches StreamView::Listening(id) ==> exists|i: int|
            0 <= i < event.listeners.len() && (#[trigger] event.listeners[i]).id == id,
        distinct(event),
        stream.polls(event, live, waker, polled, after, event_after),
    ensures
        after != StreamView::Done,
        match polled {
            Poll::Ready(value) => value is Some && after == StreamView::Next,
            Poll::Pending => after matches StreamView::Listening(id) && exists|i: int|
                {
                    &&& 0 <= i < event_after.listeners.len()
                    &&& #[trigger] event_after.listeners[i] == (ListenerEntry::<T> {
                        id,
                        waker: Some(waker),
                        value: None,
                    })
                },
        },
{
    match stream {
        StreamView::Listening(id) => {
            let i = choose|i: int|
                0 <= i < event.listeners.len() && (#[trigger] event.listeners[i]).id == id;
            law_listener_exact(event, i, waker);
            if polled is Pending {
                assert(event_after.listeners[i].id == id);
            }
        },
        StreamView::Next => {
            assert(event_after.listeners[event.listeners.len() as int].id == event.next_id);
        },
        StreamView::Done => {},
    }
}

/// What polling a stream returns and changes, in each of its states.
pub proof fn law_stream_exact<T>(
    stream: StreamView,
    event: EventView<T>,
    live: bool,
    waker: Waker,
    polled: Poll<Option<T>>,
    after: StreamView,
    event_after: EventView<T>,
    i: int,
)
    requires
        distinct(event),
        stream matches StreamView::Listening(id) ==> 0 <= i < event.listeners.len()
            && event.listeners[i].id == id,
        stream.polls(event, live, waker, polled, after, event_after),
    ensures
        match stream {
            StreamView::Listening(id) => match event.listeners[i].value {
                Some(value) => {
                    &&& polled == Poll::Ready(Some(value))
                    &&& after == StreamView::Next
                    &&& event_after == (EventView {
                        listeners: event.listeners.remove(i),
                        ..event
                    })
                },
                None => {
                    &&& polled is Pending
                    &&& after == stream
                    &&& event_after == (EventView {
                        listeners: event.listeners.update(
                            i,
                            ListenerEntry { waker: Some(waker), ..event.listeners[i] },
                        ),
                        ..event
                    })
                },
            },
            StreamView::Next if live => {
                &&& polled is Pending
                &&& after == StreamView::Listening(event.next_id)
                &&& event_after == event.with_listener(Some(waker))
            },
            _ => {
                &&& polled == Poll::Ready(None::<T>)
                &&& after == StreamView::Done
                &&& event_after == event
            },
        },
{
    if let StreamView::Listening(id) = stream {
        law_listener_exact(event, i, waker);
    }
}

/// When a stream can be polled, and what giving it back does: its listener, if it has one, is given
/// back.
pub proof fn law_stream_handles<T>(stream: StreamView, event: EventView<T>, live: bool)
    ensures
        stream.pollable(event, live) <==> match stream {
            StreamView::Listening(id) => exists|i: int|
                0 <= i < event.listeners.len() && (#[trigger] event.listeners[i]).id == id,
            StreamView::Next => live ==> event.next_id < usize::MAX,
            StreamView::Done => true,
        },
        match stream {
            StreamView::Listening(id) => {
                &&& stream.dropped(event) == event.dropped(id)
                &&& stream.dropped_wakers(event) == event.dropped_wakers(id)
            },
            _ => stream.dropped(event) == event && stream.dropped_wakers(event).len() == 0,
        },
{
}

/// However often a stream is polled, and whatever else happens to its event meanwhile, it does not
/// end while the event is there.
pub proof fn law_stream_never_ends<T>(
    streams: Seq<StreamView>,
    before: Seq<EventView<T>>,
    wakers: Seq<Waker>,
    results: Seq<Poll<Option<T>>>,
    after: Seq<EventView<T>>,
    n: int,
)
    requires
        0 <= n < results.len(),
        streams.len() == results.len() + 1,
        streams[0] != StreamView::Done,
        forall|k: int|
            0 <= k < results.len() ==> #[trigger] streams[k].polls(
                before[k],
                true,
                wakers[k],
                results[k],
                streams[k + 1],
                after[k],
            ),
    ensures
        results[n] != Poll::Ready(None::<T>),
        streams[n + 1] != StreamView::Done,
    decreases n,
{
    if n > 0 {
        law_stream_never_ends(streams, before, wakers, results, after, n - 1);
    }
    assert(streams[n].polls(
        before[n],
        true,
        wakers[n],
        results[n],
        streams[n + 1],
        after[n],
    ));
}

} // verus!
