//! What each operation on a wait group does.
use core::task::Waker;

use vstd::prelude::*;

use super::WaitGroupView;
use crate::event::exact;
use crate::wait;
use crate::wait::Waiter;

verus! {

/// What polling a task that waits for a group does. One that waits and has not been notified goes
/// on waiting. Any other stops waiting; it is done if no ticket is out, and waits anew otherwise.
pub proof fn law_wait_poll_exact(group: WaitGroupView, waiter: Waiter, waker: Waker)
    ensures
        ({
            let ready = wait::ready(waiter, group.event);
            let rest = wait::released(waiter, group.event);
            let after = group.polled(waiter, waker);
            &&& group.done(waiter) <==> ready && group.tickets == 0
            &&& group.pollable(waiter) <==> wait::attached(waiter, group.event) && (ready
                && group.tickets > 0 ==> group.event.next_id < usize::MAX)
            &&& after.tickets == group.tickets
            &&& after.event == (if !ready {
                wait::parked(waiter, group.event, waker)
            } else if group.tickets == 0 {
                rest
            } else {
                rest.with_listener(Some(waker))
            })
            &&& group.polled_waiter(waiter) == (if !ready {
                waiter
            } else if group.tickets == 0 {
                None
            } else {
                Some(group.event.next_id)
            })
        }),
{
}

/// What the other operations on a group do: a ticket that is given back notifies one task.
pub proof fn law_tickets_exact(group: WaitGroupView, waiter: Waiter)
    ensures
        group.tickets < usize::MAX ==> group.with_ticket().tickets == group.tickets + 1,
        group.with_ticket().event == group.event,
        group.tickets > 0 ==> group.without_ticket().tickets == group.tickets - 1,
        group.without_ticket().event == group.event.signaled(1),
        group.without_wait(waiter).tickets == group.tickets,
        group.without_wait(waiter).event == wait::abandoned(waiter, group.event),
{
}

/// A task that is told to wait, whether for the first time or again, is left waiting with the waker
/// of this very poll; and when a ticket is given back while nobody else listens, that waker is
/// woken.
pub proof fn law_wait_leaves_waker(group: WaitGroupView, waiter: Waiter, waker: Waker)
    requires
        group.event.wf(),
        group.pollable(waiter),
        !group.done(waiter),
    ensures
        ({
            let after = group.polled(waiter, waker);
            &&& wait::exact::waits_with(after.event, group.polled_waiter(waiter), waker)
            &&& after.event.listeners.len() == 1 ==> after.event.signaled_wakers(1) == seq![waker]
        }),
{
    law_wait_poll_exact(group, waiter, waker);
    if !wait::ready(waiter, group.event) {
        wait::exact::law_parked_waits(waiter, group.event, waker);
    } else {
        wait::exact::law_listener_waits(wait::released(waiter, group.event), waker);
    }
    exact::law_signal_next(group.polled(waiter, waker).event);
}

} // verus!
