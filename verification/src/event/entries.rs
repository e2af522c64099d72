//! The entries of an event's listeners, in the order of registration.
use core::task::Waker;

use vstd::prelude::*;

verus! {

/// What an event remembers of one listener.
#[derive(Debug)]
pub struct ListenerEntry<T> {
    /// The listener's number; later listeners have larger numbers.
    pub id: usize,
    /// The waker of the task that polled the listener last and was told to wait.
    pub waker: Option<Waker>,
    /// The notification that the listener has been given and has not taken yet.
    pub value: Option<T>,
}

impl<T> ListenerEntry<T> {
    /// Whether the listener holds a notification.
    pub fn is_notified(&self) -> (b: bool)
        ensures
            b == self.value is Some,
    {
        self.value.is_some()
    }
}

/// The number of entries in `s` that hold no notification.
pub open spec fn waiting<T>(s: Seq<ListenerEntry<T>>) -> nat
    decreases s.len(),
{
    if s.len() == 0 {
        0
    } else {
        waiting(s.drop_last()) + if s.last().value is None {
            1nat
        } else {
            0nat
        }
    }
}

/// The number of entries in `s` that hold a notification.
pub open spec fn notified_count<T>(s: Seq<ListenerEntry<T>>) -> int {
    s.len() - waiting(s)
}

/// Whether the entry at `i` is one of the first `k` entries of `s` that hold no notification.
pub open spec fn chosen<T>(s: Seq<ListenerEntry<T>>, k: nat, i: int) -> bool {
    s[i].value is None && waiting(s.take(i)) < k
}

/// The wakers of the chosen entries, in the order of the entries.
pub open spec fn chosen_wakers<T>(s: Seq<ListenerEntry<T>>, k: nat) -> Seq<Waker>
    decreases s.len(),
{
    if s.len() == 0 {
        Seq::empty()
    } else {
        let before = chosen_wakers(s.drop_last(), k);
        match s.last().waker {
            Some(waker) if chosen(s, k, s.len() - 1) => before.push(waker),
            _ => before,
        }
    }
}

/// The wakers of all entries, in the order of the entries.
pub open spec fn all_wakers<T>(s: Seq<ListenerEntry<T>>) -> Seq<Waker>
    decreases s.len(),
{
    if s.len() == 0 {
        Seq::empty()
    } else {
        match s.last().waker {
            Some(waker) => all_wakers(s.drop_last()).push(waker),
            None => all_wakers(s.drop_last()),
        }
    }
}

/// The position of the first entry that holds no notification, or the length of `s`.
pub open spec fn first_waiting<T>(s: Seq<ListenerEntry<T>>) -> int
    decreases s.len(),
{
    if s.len() == 0 {
        0
    } else {
        let i = first_waiting(s.drop_last());
        if i < s.len() - 1 || s.last().value is None {
            i
        } else {
            s.len() as int
        }
    }
}

pub(crate) proof fn lemma_waiting_bound<T>(s: Seq<ListenerEntry<T>>)
    ensures
        waiting(s) <= s.len(),
    decreases s.len(),
{
    if s.len() > 0 {
        lemma_waiting_bound(s.drop_last());
    }
}

pub(crate) proof fn lemma_waiting_update<T>(
    s: Seq<ListenerEntry<T>>,
    i: int,
    entry: ListenerEntry<T>,
)
    requires
        0 <= i < s.len(),
    ensures
        waiting(s.update(i, entry)) == waiting(s) - (if s[i].value is None {
            1int
        } else {
            0int
        }) + (if entry.value is None {
            1int
        } else {
            0int
        }),
    decreases s.len(),
{
    if i == s.len() - 1 {
        assert(s.update(i, entry).drop_last() =~= s.drop_last());
    } else {
        lemma_waiting_update(s.drop_last(), i, entry);
        assert(s.update(i, entry).drop_last() =~= s.drop_last().update(i, entry));
    }
}

pub(crate) proof fn lemma_waiting_same<T>(s: Seq<ListenerEntry<T>>, t: Seq<ListenerEntry<T>>)
    requires
        s.len() == t.len(),
        forall|i: int| 0 <= i < s.len() ==> (#[trigger] t[i]).value == s[i].value,
    ensures
        waiting(s) == waiting(t),
    decreases s.len(),
{
    if s.len() > 0 {
        assert(t.drop_last().len() == s.drop_last().len());
        assert forall|i: int| 0 <= i < s.drop_last().len() implies (
        #[trigger] t.drop_last()[i]).value == s.drop_last()[i].value by {
            assert(t[i].value == s[i].value);
        }
        lemma_waiting_same(s.drop_last(), t.drop_last());
        assert(t[s.len() - 1].value == s[s.len() - 1].value);
    }
}

pub(crate) proof fn lemma_waiting_remove<T>(s: Seq<ListenerEntry<T>>, i: int)
    requires
        0 <= i < s.len(),
    ensures
        waiting(s.remove(i)) == waiting(s) - (if s[i].value is None {
            1int
        } else {
            0int
        }),
    decreases s.len(),
{
    if i == s.len() - 1 {
        assert(s.remove(i) =~= s.drop_last());
    } else {
        lemma_waiting_remove(s.drop_last(), i);
        assert(s.remove(i).drop_last() =~= s.drop_last().remove(i));
    }
}

pub(crate) proof fn lemma_first_waiting<T>(s: Seq<ListenerEntry<T>>)
    ensures
        0 <= first_waiting(s) <= s.len(),
        first_waiting(s) < s.len() ==> s[first_waiting(s)].value is None,
        forall|i: int| 0 <= i < first_waiting(s) ==> (#[trigger] s[i]).value is Some,
    decreases s.len(),
{
    if s.len() > 0 {
        lemma_first_waiting(s.drop_last());
        assert forall|i: int| 0 <= i < first_waiting(s) implies (#[trigger] s[i]).value is Some by {
            if i < s.len() - 1 {
                assert(s.drop_last()[i] == s[i]);
            }
        }
    }
}

pub(crate) proof fn lemma_waiting_take<T>(s: Seq<ListenerEntry<T>>, i: int, j: int)
    requires
        0 <= i <= j <= s.len(),
    ensures
        waiting(s.take(i)) <= waiting(s.take(j)),
    decreases j - i,
{
    if i < j {
        lemma_waiting_take(s, i, j - 1);
        assert(s.take(j).drop_last() =~= s.take(j - 1));
    }
}

pub(crate) proof fn lemma_chosen_wakers_stop<T>(s: Seq<ListenerEntry<T>>, k: nat, i: int, j: int)
    requires
        0 <= i <= j <= s.len(),
        k <= waiting(s.take(i)),
    ensures
        chosen_wakers(s.take(j), k) == chosen_wakers(s.take(i), k),
    decreases j - i,
{
    if i < j {
        lemma_chosen_wakers_stop(s, k, i, j - 1);
        lemma_waiting_take(s, i, j - 1);
        assert(s.take(j).drop_last() =~= s.take(j - 1));
        assert(s.take(j).take(j - 1) =~= s.take(j - 1));
    }
}

/// Among the first `n` entries, notifying takes the chosen ones off those that wait.
pub(crate) proof fn lemma_notified_after<T>(
    before: Seq<ListenerEntry<T>>,
    after: Seq<ListenerEntry<T>>,
    k: nat,
    n: int,
)
    requires
        after.len() == before.len(),
        0 <= n <= before.len(),
        forall|i: int|
            0 <= i < before.len() ==> (#[trigger] after[i]).value is None == (
            before[i].value is None && !chosen(before, k, i)),
    ensures
        waiting(after.take(n)) == (if waiting(before.take(n)) <= k {
            0
        } else {
            waiting(before.take(n)) - k
        }),
    decreases n,
{
    if n > 0 {
        lemma_notified_after(before, after, k, n - 1);
        assert(before.take(n).drop_last() =~= before.take(n - 1));
        assert(after.take(n).drop_last() =~= after.take(n - 1));
        assert(after[n - 1] == after.take(n).last());
    }
}

pub(crate) proof fn lemma_no_wakers<T>(s: Seq<ListenerEntry<T>>)
    requires
        forall|i: int| 0 <= i < s.len() ==> (#[trigger] s[i]).waker is None,
    ensures
        all_wakers(s) == Seq::<Waker>::empty(),
    decreases s.len(),
{
    if s.len() > 0 {
        assert forall|i: int| 0 <= i < s.drop_last().len() implies (
        #[trigger] s.drop_last()[i]).waker is None by {
            assert(s[i].waker is None);
        }
        lemma_no_wakers(s.drop_last());
    }
}

pub(crate) proof fn lemma_none_notified<T>(s: Seq<ListenerEntry<T>>)
    requires
        notified_count(s) == 0,
    ensures
        forall|i: int| 0 <= i < s.len() ==> (#[trigger] s[i]).value is None,
    decreases s.len(),
{
    if s.len() > 0 {
        lemma_waiting_bound(s.drop_last());
        lemma_none_notified(s.drop_last());
        assert forall|i: int| 0 <= i < s.len() implies (#[trigger] s[i]).value is None by {
            if i < s.len() - 1 {
                assert(s.drop_last()[i] == s[i]);
            }
        }
    }
}

pub(crate) proof fn lemma_all_notified<T>(s: Seq<ListenerEntry<T>>)
    requires
        forall|i: int| 0 <= i < s.len() ==> (#[trigger] s[i]).value is Some,
    ensures
        waiting(s) == 0,
    decreases s.len(),
{
    if s.len() > 0 {
        assert forall|i: int| 0 <= i < s.drop_last().len() implies (
        #[trigger] s.drop_last()[i]).value is Some by {
            assert(s[i].value is Some);
        }
        lemma_all_notified(s.drop_last());
    }
}

} // verus!
