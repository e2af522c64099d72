//! What holds of channels as a whole.
use core::task::{Poll, Waker};

use vstd::prelude::*;

use super::{mpsc, oneshot, ChannelError};
use crate::event::{entries, laws};
use crate::wait;
use crate::wait::Waiter;

verus! {

/// Something that is done to a queue.
pub enum Step<T> {
    /// A sender tries to send a value.
    TrySend(T),
    /// A future that sends `value`, if it is still to be sent, and may be waiting with `waiter` is
    /// polled.
    PollSend { waiter: Waiter, value: Option<T>, waker: Waker },
    /// A future that sends and may be waiting with this listener is given up.
    DropSend(Waiter),
    /// A sender is cloned.
    CloneSender,
    /// A sender is given back.
    DropSender,
    /// The receiver, which may be waiting with `waiter`, is polled.
    PollReceiver { waiter: Waiter, waker: Waker },
    /// The receiver, which may be waiting with this listener, is given back.
    DropReceiver(Waiter),
}

impl<T> Step<T> {
    /// Whether the step can be done.
    pub open spec fn possible(self, shared: mpsc::StateView<T>) -> bool {
        match self {
            Step::PollSend { waiter, value, .. } => shared.sendable(waiter, value),
            Step::CloneSender => shared.open ==> shared.senders < usize::MAX,
            Step::DropSender => shared.open ==> shared.senders > 0,
            Step::PollReceiver { waiter, .. } => shared.receivable(waiter),
            _ => true,
        }
    }

    /// What the step turns the shared state into.
    pub open spec fn after(self, shared: mpsc::StateView<T>) -> mpsc::StateView<T> {
        match self {
            Step::TrySend(value) => if shared.accepts() {
                shared.pushed(value)
            } else {
                shared
            },
            Step::PollSend { waiter, value, waker } => shared.after_send(waiter, value, waker),
            Step::DropSend(waiter) => shared.without_send(waiter),
            Step::CloneSender => shared.with_sender(),
            Step::DropSender => if shared.open {
                shared.without_sender()
            } else {
                shared
            },
            Step::PollReceiver { waiter, waker } => shared.after_receive(waiter, waker),
            Step::DropReceiver(waiter) => shared.without_receiver(waiter),
        }
    }

    /// The value whose sending the step reports as done.
    pub open spec fn accepted(self, shared: mpsc::StateView<T>) -> Seq<T> {
        match self {
            Step::TrySend(value) if shared.accepts() => seq![value],
            Step::PollSend { waiter, value: Some(value), .. } if shared.send_result(waiter)
                == Poll::Ready(Ok::<(), ChannelError>(())) => seq![value],
            _ => Seq::empty(),
        }
    }

    /// What the step gives out: the value that the receiver yields, or, when the receiver goes,
    /// what it leaves behind.
    pub open spec fn given_out(self, shared: mpsc::StateView<T>) -> Seq<T> {
        match self {
            Step::PollReceiver { waiter, .. } => match shared.receive_result(waiter) {
                Poll::Ready(Some(value)) => seq![value],
                _ => Seq::empty(),
            },
            Step::DropReceiver(_) => shared.queue,
            _ => Seq::empty(),
        }
    }
}

/// The shared state after a run of steps.
pub open spec fn run_after<T>(shared: mpsc::StateView<T>, run: Seq<Step<T>>) -> mpsc::StateView<T>
    decreases run.len(),
{
    if run.len() == 0 {
        shared
    } else {
        run.last().after(run_after(shared, run.drop_last()))
    }
}

/// Whether each step of a run can be done when its turn comes.
pub open spec fn run_possible<T>(shared: mpsc::StateView<T>, run: Seq<Step<T>>) -> bool
    decreases run.len(),
{
    run.len() > 0 ==> {
        &&& run_possible(shared, run.drop_last())
        &&& run.last().possible(run_after(shared, run.drop_last()))
    }
}

/// The values whose sending a run reports as done, in the order of the steps.
pub open spec fn run_accepted<T>(shared: mpsc::StateView<T>, run: Seq<Step<T>>) -> Seq<T>
    decreases run.len(),
{
    if run.len() == 0 {
        Seq::empty()
    } else {
        run_accepted(shared, run.drop_last()) + run.last().accepted(
            run_after(shared, run.drop_last()),
        )
    }
}

/// The values that a run gives out, in the order of the steps.
pub open spec fn run_given_out<T>(shared: mpsc::StateView<T>, run: Seq<Step<T>>) -> Seq<T>
    decreases run.len(),
{
    if run.len() == 0 {
        Seq::empty()
    } else {
        run_given_out(shared, run.drop_last()) + run.last().given_out(
            run_after(shared, run.drop_last()),
        )
    }
}

/// First in, first out, and nothing lost, invented or doubled: over any run of sends, receives,
/// clones and drops, what comes out followed by what is still queued is what was queued at the
/// beginning followed by what was accepted. At no time is more queued than the bound allows.
pub proof fn law_first_in_first_out<T>(shared: mpsc::StateView<T>, run: Seq<Step<T>>)
    requires
        shared.queue.len() <= shared.max_queue_size,
        run_possible(shared, run),
    ensures
        run_given_out(shared, run) + run_after(shared, run).queue == shared.queue + run_accepted(
            shared,
            run,
        ),
        run_after(shared, run).queue.len() <= shared.max_queue_size,
        run_after(shared, run).max_queue_size == shared.max_queue_size,
    decreases run.len(),
{
    if run.len() > 0 {
        let before = run.drop_last();
        law_first_in_first_out(shared, before);
        let step = run.last();
        let state = run_after(shared, before);
        let out = run_given_out(shared, before);
        let taken = run_accepted(shared, before);
        let new_out = step.given_out(state);
        let new_taken = step.accepted(state);
        assert(new_out + step.after(state).queue =~= state.queue + new_taken);
        assert((out + new_out) + step.after(state).queue =~= out + (new_out + step.after(
            state,
        ).queue));
        assert(out + (state.queue + new_taken) =~= (out + state.queue) + new_taken);
        assert((shared.queue + taken) + new_taken =~= shared.queue + (taken + new_taken));
    } else {
        assert(run_given_out(shared, run) + run_after(shared, run).queue =~= shared.queue
            + run_accepted(shared, run));
    }
}

/// How many senders a run adds: one for every clone, and one less for every sender given back.
pub open spec fn senders_added<T>(run: Seq<Step<T>>) -> int
    decreases run.len(),
{
    if run.len() == 0 {
        0
    } else {
        senders_added(run.drop_last()) + match run.last() {
            Step::CloneSender => 1int,
            Step::DropSender => -1int,
            _ => 0int,
        }
    }
}

/// Over any run, for as long as the receiver is there, the channel counts its senders; and once
/// the receiver is gone, it stays gone and nothing is queued any more.
pub proof fn law_senders_are_counted<T>(shared: mpsc::StateView<T>, run: Seq<Step<T>>)
    requires
        run_possible(shared, run),
        !shared.open ==> shared.queue.len() == 0,
    ensures
        run_after(shared, run).open ==> shared.open && run_after(shared, run).senders
            == shared.senders + senders_added(run),
        !run_after(shared, run).open ==> run_after(shared, run).queue.len() == 0,
    decreases run.len(),
{
    if run.len() > 0 {
        law_senders_are_counted(shared, run.drop_last());
    }
}

/// A value that is queued for a waiting receiver wakes it.
pub proof fn law_push_wakes_receiver<T>(
    shared: mpsc::StateView<T>,
    id: usize,
    waker: Waker,
    value: T,
)
    requires
        shared.wf(),
        shared.queue.len() == 0,
        shared.receiver_event.listeners.len() == 1,
        shared.receiver_event.listeners[0].id == id,
        shared.receiver_event.listeners[0].value is None,
        shared.receiver_event.listeners[0].waker == Some(waker),
    ensures
        shared.pushed_wakers() == seq![waker],
        wait::ready(Some(id), shared.pushed(value).receiver_event),
{
    assert(shared.receiver_event.has(id));
    laws::law_signal_sole(shared.receiver_event, id);
}

/// Taking a value out of a full queue wakes the earliest waiting sender, unless one has been
/// notified already.
pub proof fn law_pop_wakes_sender<T>(shared: mpsc::StateView<T>)
    requires
        shared.wf(),
        shared.queue.len() == shared.max_queue_size,
        shared.sender_event.listeners.len() > 0,
        entries::notified_count(shared.sender_event.listeners) == 0,
    ensures
        shared.popped().sender_event.listeners[0].value is Some,
        shared.popped().sender_event.listeners[0].id == shared.sender_event.listeners[0].id,
        shared.popped_wakers() == (match shared.sender_event.listeners[0].waker {
            Some(waker) => seq![waker],
            None => Seq::empty(),
        }),
{
    laws::law_signal_one(shared.sender_event);
}

/// After a value has been taken out of a full queue, one of the senders that wait for room, if
/// there are any, has been notified.
pub proof fn law_pop_attends_senders<T>(shared: mpsc::StateView<T>)
    requires
        shared.wf(),
        shared.queue.len() == shared.max_queue_size,
    ensures
        laws::attended(shared.popped().sender_event),
{
    laws::law_signal_attends(shared.sender_event);
}

/// The last sender to go wakes the waiting receiver, which then sees the end once the queue
/// is empty.
pub proof fn law_last_sender_ends<T>(shared: mpsc::StateView<T>, id: usize)
    requires
        shared.wf(),
        shared.senders == 1,
        shared.receiver_event.has(id),
    ensures
        shared.without_sender().senders == 0,
        shared.without_sender().queue == shared.queue,
        wait::ready(Some(id), shared.without_sender().receiver_event),
        shared.receiver_event.entry(id).waker matches Some(waker)
            ==> shared.without_sender_wakers().contains(waker),
{
    laws::law_signal_all(shared.receiver_event, id);
}

/// The receiver sees the end exactly when, not having to wait to be notified, it finds nothing
/// queued and nobody left to send; everything that is queued comes before that.
pub proof fn law_end_comes_last<T>(shared: mpsc::StateView<T>, waiter: Waiter)
    ensures
        shared.receive_result(waiter) == Poll::Ready(None::<T>) <==> wait::ready(
            waiter,
            shared.receiver_event,
        ) && shared.queue.len() == 0 && shared.senders == 0,
        wait::ready(waiter, shared.receiver_event) && shared.queue.len() > 0
            ==> shared.receive_result(waiter) == Poll::Ready(Some(shared.queue.first())),
{
}

/// Once the receiver is gone, no value is accepted any more; every sender that was waiting
/// for room is notified, and its task woken, and then it fails.
pub proof fn law_receiver_gone<T>(shared: mpsc::StateView<T>, waiter: Waiter, id: usize)
    requires
        shared.wf(),
        shared.sender_event.has(id),
    ensures
        !shared.without_receiver(waiter).open,
        !shared.without_receiver(waiter).accepts(),
        shared.without_receiver(waiter).send_result(Some(id)) == Poll::Ready(
            Err::<(), ChannelError>(ChannelError),
        ),
        shared.without_receiver(waiter).send_result(None) == Poll::Ready(
            Err::<(), ChannelError>(ChannelError),
        ),
        shared.sender_event.entry(id).waker matches Some(waker)
            ==> shared.without_receiver_wakers().contains(waker),
{
    laws::law_signal_all(shared.sender_event, id);
    let notified = shared.sender_event.signaled(usize::MAX);
    let at = notified.position(id);
    assert(shared.without_receiver(waiter).sender_event.listeners[at].id == id);
    let after = shared.without_receiver(waiter).sender_event;
    assert forall|i: int|
        0 <= i < after.listeners.len() && #[trigger] after.listeners[i].id == id implies i
        == at by {
        assert(shared.sender_event.listeners[i].id == id);
        assert(shared.sender_event.listeners[at].id == id);
    }
    assert(after.has(id));
    assert(after.position(id) == at);
    if let Some(waker) = shared.sender_event.entry(id).waker {
        let first = shared.sender_event.signaled_wakers(usize::MAX);
        let n = choose|n: int| 0 <= n < first.len() && first[n] == waker;
        assert(shared.without_receiver_wakers()[n] == waker);
    }
}

/// Whether the receiver is not forgotten: it waits with at most one listener, and if it waits
/// although there is something to receive or nobody left to send, it has been notified.
pub open spec fn receiver_attended<T>(shared: mpsc::StateView<T>, waiter: Waiter) -> bool {
    &&& wait::attached(waiter, shared.receiver_event)
    &&& shared.receiver_event.listeners.len() == (if waiter is Some {
        1int
    } else {
        0int
    })
    &&& shared.queue.len() > 0 || shared.senders == 0 ==> wait::ready(
        waiter,
        shared.receiver_event,
    )
}

/// No wake-up of the receiver is lost: whatever the senders and the receiver do, the receiver
/// never waits without a notification while there is something to receive or while nobody is
/// left to send.
pub proof fn law_receiver_no_lost_wakeup<T>(
    shared: mpsc::StateView<T>,
    waiter: Waiter,
    sender: Waiter,
    waker: Waker,
    value: T,
)
    requires
        shared.wf(),
        shared.receivable(waiter),
        receiver_attended(shared, waiter),
    ensures
        receiver_attended(shared.pushed(value), waiter),
        receiver_attended(shared.after_send(sender, Some(value), waker), waiter),
        receiver_attended(shared.without_send(sender), waiter),
        shared.senders < usize::MAX ==> receiver_attended(shared.with_sender(), waiter),
        shared.senders > 0 ==> receiver_attended(shared.without_sender(), waiter),
        receiver_attended(
            shared.after_receive(waiter, waker),
            shared.receive_waiter(waiter),
        ),
{
    let event = shared.receiver_event;
    if let Some(id) = waiter {
        laws::law_signal_sole(event, id);
        laws::law_signal_all(event, id);
        assert(event.with_waker(id, waker).listeners[0].id == id);
    }
    if wait::ready(waiter, event) && shared.queue.len() == 0 && shared.senders > 0 {
        let after = wait::released(waiter, event).with_listener(Some(waker));
        assert(after.listeners[0].id == event.next_id);
    }
}

/// A value that is sent through an empty channel is received, and it is received once.
pub proof fn law_delivered_once<T>(shared: oneshot::StateView<T>, value: T)
    requires
        shared.wf(),
        shared.state == oneshot::ChannelState::Empty,
    ensures
        shared.without_sender(Some(value)).state == oneshot::ChannelState::Full,
        shared.without_sender(Some(value)).value == Some(value),
        shared.without_sender(Some(value)).received().state == oneshot::ChannelState::Empty,
        shared.without_sender(Some(value)).received().value is None,
{
}

/// Nothing gets through a channel that one of its sides has left: what is sent after the
/// receiver has closed the channel is not delivered, and a sender that goes without sending
/// leaves nothing to receive.
pub proof fn law_closed_delivers_nothing<T>(shared: oneshot::StateView<T>, value: T)
    requires
        shared.wf(),
        shared.state == oneshot::ChannelState::Empty,
    ensures
        shared.receiver_closed().state == oneshot::ChannelState::ReceiverClosed,
        shared.receiver_closed().without_sender(Some(value)).value is None,
        shared.receiver_closed().without_sender(Some(value)).state
            == oneshot::ChannelState::ReceiverClosed,
        shared.without_sender(None).state == oneshot::ChannelState::SenderClosed,
        shared.without_sender(None).value is None,
{
}

/// A value that has been sent is not lost when the receiver closes the channel.
pub proof fn law_close_keeps_value<T>(shared: oneshot::StateView<T>)
    requires
        shared.wf(),
        shared.value is Some,
    ensures
        shared.receiver_closed() == shared,
{
}

/// When the sender goes, whether it sends or not, the waiting receiver is woken.
pub proof fn law_sender_wakes_receiver<T>(
    shared: oneshot::StateView<T>,
    id: usize,
    waker: Waker,
)
    requires
        shared.wf(),
        shared.event.has(id),
        shared.event.entry(id).waker == Some(waker),
    ensures
        shared.without_sender_wakers().contains(waker),
{
    let i = shared.event.position(id);
    let n = shared.event.listeners.len() as int;
    if shared.state == oneshot::ChannelState::Empty {
        let k = shared.event.quota(1, false);
        let after = shared.event.signaled(1).listeners;
        if entries::chosen(shared.event.listeners, k, i) {
            laws::law_notified_are_woken(shared.event.listeners, k, i);
            let first = shared.event.signaled_wakers(1);
            let at = choose|at: int| 0 <= at < first.len() && first[at] == waker;
            assert(shared.without_sender_wakers()[at] == waker);
        } else {
            assert(after[i] == shared.event.listeners[i]);
            laws::law_close_wakes_all(after, i);
            let first = shared.event.signaled_wakers(1);
            let second = entries::all_wakers(after);
            let at = choose|at: int| 0 <= at < second.len() && second[at] == waker;
            assert(shared.without_sender_wakers()[first.len() + at] == waker);
        }
    } else {
        laws::law_close_wakes_all(shared.event.listeners, i);
    }
}

} // verus!
