//! A group of tickets that can be waited for.
use core::task::{Poll, Waker};

use vstd::prelude::*;

pub mod exact;

use crate::event::{Event, EventView};
use crate::wait;
use crate::wait::{WaitState, Waiter};

verus! {

/// What a wait group holds.
#[verifier::ext_equal]
pub struct WaitGroupView {
    /// Notifies the task that waits.
    pub event: EventView<()>,
    /// The number of tickets that are out.
    pub tickets: usize,
}

impl WaitGroupView {
    /// `self` with one ticket less.
    pub open spec fn without_ticket(self) -> WaitGroupView {
        WaitGroupView { event: self.event.signaled(1), tickets: (self.tickets - 1) as usize }
    }

    /// `self` with one ticket more.
    pub open spec fn with_ticket(self) -> WaitGroupView {
        WaitGroupView { tickets: (self.tickets + 1) as usize, ..self }
    }

    /// `self` after a task that may have been waiting with `waiter` has given it up.
    pub open spec fn without_wait(self, waiter: Waiter) -> WaitGroupView {
        WaitGroupView { event: wait::abandoned(waiter, self.event), ..self }
    }

    /// What has to hold for polling a task that may be waiting with `waiter`: a listener that
    /// it waits with is registered, and if it starts to wait, there is a free listener number.
    pub open spec fn pollable(self, waiter: Waiter) -> bool {
        &&& wait::attached(waiter, self.event)
        &&& wait::ready(waiter, self.event) && self.tickets > 0 ==> self.event.next_id
            < usize::MAX
    }

    /// Whether polling a task that may be waiting with `waiter` ends the waiting.
    pub open spec fn done(self, waiter: Waiter) -> bool {
        wait::ready(waiter, self.event) && self.tickets == 0
    }

    /// `self` after polling a task that may be waiting with `waiter`.
    pub open spec fn polled(self, waiter: Waiter, waker: Waker) -> WaitGroupView {
        WaitGroupView {
            event: if !wait::ready(waiter, self.event) {
                wait::parked(waiter, self.event, waker)
            } else if self.tickets == 0 {
                wait::released(waiter, self.event)
            } else {
                wait::released(waiter, self.event).with_listener(Some(waker))
            },
            ..self
        }
    }

    /// The listener that the task waits with after it has been polled.
    pub open spec fn polled_waiter(self, waiter: Waiter) -> Waiter {
        if !wait::ready(waiter, self.event) {
            waiter
        } else if self.tickets == 0 {
            None
        } else {
            Some(self.event.next_id)
        }
    }
}

/// A group of tickets.
pub struct WaitGroup {
    event: Event,
    tickets: usize,
}

impl View for WaitGroup {
    type V = WaitGroupView;

    closed spec fn view(&self) -> WaitGroupView {
        WaitGroupView { event: self.event@, tickets: self.tickets }
    }
}

impl Default for WaitGroup {
    fn default() -> (group: Self)
        ensures
            group.wf(),
            group@ == (WaitGroupView {
                event: EventView { listeners: Seq::empty(), next_id: 0, open: true },
                tickets: 0,
            }),
    {
        Self::new()
    }
}

impl WaitGroup {
    /// The event's own bookkeeping is in order.
    pub closed spec fn event_wf(&self) -> bool {
        self.event.wf()
    }

    /// The invariant of a group.
    pub open spec fn wf(&self) -> bool {
        self@.event.wf() && self.event_wf()
    }

    /// A group without tickets.
    pub fn new() -> (group: WaitGroup)
        ensures
            group.wf(),
            group@ == (WaitGroupView {
                event: EventView { listeners: Seq::empty(), next_id: 0, open: true },
                tickets: 0,
            }),
    {
        WaitGroup { event: Event::new(), tickets: 0 }
    }

    /// Gives one more ticket out.
    pub fn add(&mut self) -> (ticket: Ticket)
        requires
            old(self).wf(),
            old(self)@.tickets < usize::MAX,
        ensures
            final(self).wf(),
            final(self)@ == old(self)@.with_ticket(),
    {
        self.tickets = self.tickets + 1;
        Ticket {  }
    }

    /// The number of tickets that are out.
    pub fn len(&self) -> (n: usize)
        ensures
            n == self@.tickets,
    {
        self.tickets
    }

    /// Whether no ticket is out.
    pub fn is_empty(&self) -> (empty: bool)
        ensures
            empty == (self@.tickets == 0),
    {
        self.tickets == 0
    }

    /// The future that waits until no ticket is out.
    pub fn wait(&mut self) -> (wait: Wait)
        requires
            old(self).wf(),
        ensures
            *final(self) == *old(self),
            wait.waiter() is None,
            !wait.done(),
    {
        Wait { state: WaitState::Idle, done: false }
    }
}

/// A ticket of a group.
pub struct Ticket {

}

impl Ticket {
    /// Gives the ticket back.
    pub fn drop(self, group: &mut WaitGroup, woken: &mut Vec<Waker>)
        requires
            old(group).wf(),
            old(group)@.tickets > 0,
        ensures
            final(group).wf(),
            final(group)@ == old(group)@.without_ticket(),
            final(woken)@ == old(woken)@ + old(group)@.event.signaled_wakers(1),
    {
        group.tickets = group.tickets - 1;
        group.event.signal(1, woken);
    }
}

/// A task that waits until no ticket of a group is out.
pub struct Wait {
    state: WaitState,
    done: bool,
}

impl Wait {
    /// The listener that the task waits with.
    pub closed spec fn waiter(&self) -> Waiter {
        self.state@
    }

    /// Whether the waiting is over.
    pub closed spec fn done(&self) -> bool {
        self.done
    }

    /// Whether the task can be polled: it is not done yet, and there is a number if it has to start
    /// to wait.
    pub fn can_poll(&self, group: &WaitGroup) -> (can: bool)
        requires
            group.wf(),
        ensures
            can == (!self.done() && group@.pollable(self.waiter())),
    {
        if self.done || !self.state.is_attached(&group.event) {
            false
        } else if self.state.is_ready(&group.event) && group.tickets > 0 {
            group.event.can_listen()
        } else {
            true
        }
    }

    /// Ends the waiting if no ticket is out; otherwise waits for the next ticket to be given
    /// back.
    pub fn poll(&mut self, group: &mut WaitGroup, waker: Waker) -> (polled: Poll<()>)
        requires
            old(group).wf(),
            !old(self).done(),
            old(group)@.pollable(old(self).waiter()),
        ensures
            final(group).wf(),
            polled is Ready == old(group)@.done(old(self).waiter()),
            final(self).done() == polled is Ready,
            final(group)@ == old(group)@.polled(old(self).waiter(), waker),
            final(self).waiter() == old(group)@.polled_waiter(old(self).waiter()),
            wait::attached(final(self).waiter(), final(group)@.event),
    {
        if !self.state.resume(&mut group.event) {
            self.state.park(&mut group.event, waker);
            return Poll::Pending;
        }
        if group.is_empty() {
            self.done = true;
            return Poll::Ready(());
        }
        self.state.park(&mut group.event, waker);
        Poll::Pending
    }

    /// Gives the waiting up.
    pub fn drop(self, group: &mut WaitGroup, woken: &mut Vec<Waker>)
        requires
            old(group).wf(),
        ensures
            final(group).wf(),
            final(group)@ == old(group)@.without_wait(self.waiter()),
            final(woken)@ == old(woken)@ + wait::abandoned_wakers(
                self.waiter(),
                old(group)@.event,
            ),
    {
        self.state.abandon(&mut group.event, woken);
    }
}

/// Whether the waiting task is not forgotten: it waits with at most one listener, and if it
/// waits although no ticket is out, it has been notified.
pub open spec fn wait_attended(group: WaitGroupView, waiter: Waiter) -> bool {
    &&& wait::attached(waiter, group.event)
    &&& group.event.listeners.len() == (if waiter is Some {
        1int
    } else {
        0int
    })
    &&& group.tickets == 0 ==> wait::ready(waiter, group.event)
}

/// No wake-up is lost: however tickets are given out and back, a task never goes on waiting
/// without a notification once no ticket is out.
pub proof fn law_wait_no_lost_wakeup(group: WaitGroupView, waiter: Waiter, waker: Waker)
    requires
        group.event.wf(),
        group.pollable(waiter),
        wait_attended(group, waiter),
    ensures
        group.tickets > 0 ==> wait_attended(group.without_ticket(), waiter),
        group.tickets < usize::MAX ==> wait_attended(group.with_ticket(), waiter),
        wait_attended(group.polled(waiter, waker), group.polled_waiter(waiter)),
        wait_attended(group.without_wait(waiter), None),
{
    let event = group.event;
    if let Some(id) = waiter {
        crate::event::laws::law_signal_sole(event, id);
        assert(event.with_waker(id, waker).listeners[0].id == id);
    }
    if wait::ready(waiter, event) && group.tickets > 0 {
        let after = wait::released(waiter, event).with_listener(Some(waker));
        assert(after.listeners[0].id == event.next_id);
    }
}

/// Something that is done to a wait group.
pub enum WaitGroupStep {
    /// A ticket is given out.
    Add,
    /// A ticket is given back.
    DropTicket,
    /// A task that may be waiting with `waiter` is polled.
    Poll { waiter: Waiter, waker: Waker },
    /// A task that may be waiting with this listener gives that up.
    GiveUp(Waiter),
}

/// The group after a run of steps.
pub open spec fn group_after(group: WaitGroupView, run: Seq<WaitGroupStep>) -> WaitGroupView
    decreases run.len(),
{
    if run.len() == 0 {
        group
    } else {
        let before = group_after(group, run.drop_last());
        match run.last() {
            WaitGroupStep::Add => before.with_ticket(),
            WaitGroupStep::DropTicket => before.without_ticket(),
            WaitGroupStep::Poll { waiter, waker } => before.polled(waiter, waker),
            WaitGroupStep::GiveUp(waiter) => before.without_wait(waiter),
        }
    }
}

/// Whether each step of a run can be done when its turn comes.
pub open spec fn group_possible(group: WaitGroupView, run: Seq<WaitGroupStep>) -> bool
    decreases run.len(),
{
    run.len() > 0 ==> {
        let before = group_after(group, run.drop_last());
        &&& group_possible(group, run.drop_last())
        &&& match run.last() {
            WaitGroupStep::Add => before.tickets < usize::MAX,
            WaitGroupStep::DropTicket => before.tickets > 0,
            WaitGroupStep::Poll { waiter, .. } => before.pollable(waiter),
            WaitGroupStep::GiveUp(_) => true,
        }
    }
}

/// How many tickets a run leaves out: those given out, less those given back.
pub open spec fn tickets_added(run: Seq<WaitGroupStep>) -> int
    decreases run.len(),
{
    if run.len() == 0 {
        0
    } else {
        tickets_added(run.drop_last()) + match run.last() {
            WaitGroupStep::Add => 1int,
            WaitGroupStep::DropTicket => -1int,
            _ => 0int,
        }
    }
}

/// Over any run, the group counts the tickets that are out; and waiting ends only when there are
/// none.
pub proof fn law_tickets_are_counted(
    group: WaitGroupView,
    run: Seq<WaitGroupStep>,
    waiter: Waiter,
)
    requires
        group_possible(group, run),
    ensures
        group_after(group, run).tickets == group.tickets + tickets_added(run),
        group_after(group, run).done(waiter) ==> group.tickets + tickets_added(run) == 0,
    decreases run.len(),
{
    if run.len() > 0 {
        law_tickets_are_counted(group, run.drop_last(), waiter);
    }
}

} // verus!
