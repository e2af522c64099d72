//! What waiting for an event means, listener by listener.
use core::task::Waker;

use vstd::prelude::*;

use super::Waiter;
use crate::event::exact;
use crate::event::{EventView, ListenerEntry};

verus! {

/// Whether a task is left waiting: the listener that `waiter` names is registered, holds no
/// notification, and has this waker.
pub open spec fn waits_with(event: EventView<()>, waiter: Waiter, waker: Waker) -> bool {
    waiter matches Some(id) && exists|i: int|
        {
            &&& 0 <= i < event.listeners.len()
            &&& #[trigger] event.listeners[i] == (ListenerEntry::<()> {
                id,
                waker: Some(waker),
                value: None,
            })
        }
}

/// What becomes of a future that waits with the listener at `i`, or does not wait.
pub proof fn law_wait_exact(waiter: Waiter, event: EventView<()>, i: int, waker: Waker)
    requires
        exact::distinct(event),
        waiter matches Some(id) ==> 0 <= i < event.listeners.len() && event.listeners[i].id == id,
    ensures
        super::attached(waiter, event),
        super::ready(waiter, event) <==> (waiter is Some ==> event.listeners[i].value is Some),
        super::released(waiter, event) == (EventView {
            listeners: if waiter is Some {
                event.listeners.remove(i)
            } else {
                event.listeners
            },
            ..event
        }),
        super::parked(waiter, event, waker) == (if waiter is Some {
            EventView {
                listeners: event.listeners.update(
                    i,
                    ListenerEntry { waker: Some(waker), ..event.listeners[i] },
                ),
                ..event
            }
        } else {
            event.with_listener(Some(waker))
        }),
        super::parked_waiter(waiter, event) == (if waiter is Some {
            waiter
        } else {
            Some(event.next_id)
        }),
        super::abandoned(waiter, event) == (match waiter {
            Some(id) => event.dropped(id),
            None => event,
        }),
        super::abandoned_wakers(waiter, event) == (match waiter {
            Some(id) => event.dropped_wakers(id),
            None => Seq::empty(),
        }),
{
    if waiter is Some {
        exact::law_listener_exact(event, i, waker);
    }
}

/// A future waits with a registered listener, or with none.
pub proof fn law_attached_exact(waiter: Waiter, event: EventView<()>)
    ensures
        super::attached(waiter, event) <==> (waiter matches Some(id) ==> exists|i: int|
            0 <= i < event.listeners.len() && (#[trigger] event.listeners[i]).id == id),
{
}

/// A task that starts to wait, or goes on waiting, is left waiting with the waker it came with.
pub proof fn law_parked_waits(waiter: Waiter, event: EventView<()>, waker: Waker)
    requires
        exact::distinct(event),
        super::attached(waiter, event),
        waiter is Some ==> !super::ready(waiter, event),
    ensures
        waits_with(
            super::parked(waiter, event, waker),
            super::parked_waiter(waiter, event),
            waker,
        ),
{
    law_attached_exact(waiter, event);
    match waiter {
        Some(id) => {
            let i = choose|i: int|
                0 <= i < event.listeners.len() && (#[trigger] event.listeners[i]).id == id;
            exact::law_listener_exact(event, i, waker);
            assert(super::parked(waiter, event, waker).listeners[i].id == id);
        },
        None => {
            law_listener_waits(event, waker);
        },
    }
}

/// A listener that is registered with a waker is left waiting with it.
pub proof fn law_listener_waits(event: EventView<()>, waker: Waker)
    ensures
        waits_with(event.with_listener(Some(waker)), Some(event.next_id), waker),
{
    let last = event.listeners.len() as int;
    assert(event.with_listener(Some(waker)).listeners[last].id == event.next_id);
}

/// A task that is left waiting is woken by the notification that reaches it.
pub proof fn law_waiting_is_woken(
    event: EventView<()>,
    waiter: Waiter,
    waker: Waker,
    n: usize,
)
    requires
        exact::distinct(event),
        waits_with(event, waiter, waker),
        super::ready(waiter, event.signaled(n)),
    ensures
        event.signaled_wakers(n).contains(waker),
{
    let id = waiter->0;
    let i = choose|i: int|
        {
            &&& 0 <= i < event.listeners.len()
            &&& #[trigger] event.listeners[i] == (ListenerEntry::<()> {
                id,
                waker: Some(waker),
                value: None,
            })
        };
    exact::law_signal_exact(event, n);
    let after = event.signaled(n);
    assert(after.listeners[i].id == id);
    assert(exact::distinct(after)) by {
        assert forall|j: int, k: int| 0 <= j < k < after.listeners.len() implies (
        #[trigger] after.listeners[j]).id != (#[trigger] after.listeners[k]).id by {
            assert(event.listeners[j].id != event.listeners[k].id);
        }
    }
    exact::law_listener_exact(after, i, waker);
    exact::law_reached_is_woken(event, n, i, waker);
}

} // verus!
