//! What each operation on a channel does.
use core::task::{Poll, Waker};

use vstd::prelude::*;

use super::laws::Step;
use super::mpsc;
use super::oneshot;
use super::oneshot::ChannelState;
use super::ChannelError;
use crate::event::{entries, exact, laws};
use crate::wait;
use crate::wait::Waiter;

verus! {

/// What polling a future that sends does. One that waits and has not been notified goes on waiting.
/// Any other stops waiting; it fails if the receiver is gone, queues its value if there is room,
/// and waits anew if there is none. Queueing into an empty queue notifies the receiver.
pub proof fn law_send_poll_exact<T>(
    shared: mpsc::StateView<T>,
    waiter: Waiter,
    value: T,
    waker: Waker,
)
    ensures
        ({
            let ready = wait::ready(waiter, shared.sender_event);
            let rest = wait::released(waiter, shared.sender_event);
            let room = shared.queue.len() < shared.max_queue_size;
            let sends = ready && shared.open && room;
            let waits_anew = ready && shared.open && !room;
            let first = sends && shared.queue.len() == 0;
            let after = shared.after_send(waiter, Some(value), waker);
            &&& shared.send_result(waiter) == (if sends {
                Poll::Ready(Ok::<(), ChannelError>(()))
            } else if ready && !shared.open {
                Poll::Ready(Err(ChannelError))
            } else {
                Poll::Pending
            })
            &&& after.queue == (if sends {
                shared.queue.push(value)
            } else {
                shared.queue
            })
            &&& after.sender_event == (if !ready {
                wait::parked(waiter, shared.sender_event, waker)
            } else if waits_anew {
                rest.with_listener(Some(waker))
            } else {
                rest
            })
            &&& after.receiver_event == (if first {
                shared.receiver_event.signaled(1)
            } else {
                shared.receiver_event
            })
            &&& after.max_queue_size == shared.max_queue_size
            &&& after.senders == shared.senders
            &&& after.open == shared.open
            &&& shared.send_waiter(waiter) == (if !ready {
                waiter
            } else if waits_anew {
                Some(shared.sender_event.next_id)
            } else {
                None
            })
            &&& shared.send_wakers(waiter) == (if first {
                shared.receiver_event.signaled_wakers(1)
            } else {
                Seq::empty()
            })
        }),
{
}

/// When a future that sends can be polled: it waits with a registered listener, if at all; its
/// value is still there if there is room for it; and there is a number if it has to wait anew.
pub proof fn law_sendable_exact<T>(
    shared: mpsc::StateView<T>,
    waiter: Waiter,
    value: Option<T>,
)
    ensures
        ({
            let ready = wait::ready(waiter, shared.sender_event);
            let room = shared.queue.len() < shared.max_queue_size;
            shared.sendable(waiter, value) <==> {
                &&& wait::attached(waiter, shared.sender_event)
                &&& ready && shared.open && room ==> value is Some
                &&& ready && shared.open && !room ==> shared.sender_event.next_id < usize::MAX
            }
        }),
{
}

/// What trying to send does: a value is queued exactly when the receiver is there and there is
/// room, and queueing into an empty queue notifies the receiver.
pub proof fn law_push_exact<T>(shared: mpsc::StateView<T>, value: T)
    ensures
        shared.accepts() <==> shared.open && shared.queue.len() < shared.max_queue_size,
        ({
            let after = shared.pushed(value);
            &&& after.queue == shared.queue.push(value)
            &&& after.sender_event == shared.sender_event
            &&& after.receiver_event == (if shared.queue.len() == 0 {
                shared.receiver_event.signaled(1)
            } else {
                shared.receiver_event
            })
            &&& after.max_queue_size == shared.max_queue_size
            &&& after.senders == shared.senders
            &&& after.open == shared.open
        }),
        shared.pushed_wakers() == (if shared.queue.len() == 0 {
            shared.receiver_event.signaled_wakers(1)
        } else {
            Seq::empty()
        }),
{
}

/// What polling the receiver does. One that waits and has not been notified goes on waiting. Any
/// other stops waiting; it takes the oldest value if there is one, ends if nobody is left to send,
/// and waits anew otherwise. Taking a value out of a full queue notifies one sender.
pub proof fn law_receive_poll_exact<T>(shared: mpsc::StateView<T>, waiter: Waiter, waker: Waker)
    ensures
        ({
            let ready = wait::ready(waiter, shared.receiver_event);
            let rest = wait::released(waiter, shared.receiver_event);
            let takes = ready && shared.queue.len() > 0;
            let ends = ready && shared.queue.len() == 0 && shared.senders == 0;
            let waits_anew = ready && shared.queue.len() == 0 && shared.senders > 0;
            let frees = takes && shared.queue.len() == shared.max_queue_size;
            let after = shared.after_receive(waiter, waker);
            &&& shared.receive_result(waiter) == (if takes {
                Poll::Ready(Some(shared.queue[0]))
            } else if ends {
                Poll::Ready(None)
            } else {
                Poll::Pending
            })
            &&& after.queue == (if takes {
                shared.queue.subrange(1, shared.queue.len() as int)
            } else {
                shared.queue
            })
            &&& after.receiver_event == (if !ready {
                wait::parked(waiter, shared.receiver_event, waker)
            } else if waits_anew {
                rest.with_listener(Some(waker))
            } else {
                rest
            })
            &&& after.sender_event == (if frees {
                shared.sender_event.signaled(1)
            } else {
                shared.sender_event
            })
            &&& after.max_queue_size == shared.max_queue_size
            &&& after.senders == shared.senders
            &&& after.open == shared.open
            &&& shared.receive_waiter(waiter) == (if !ready {
                waiter
            } else if waits_anew {
                Some(shared.receiver_event.next_id)
            } else {
                None
            })
            &&& shared.receive_wakers(waiter) == (if frees {
                shared.sender_event.signaled_wakers(1)
            } else {
                Seq::empty()
            })
            &&& shared.receivable(waiter) <==> {
                &&& wait::attached(waiter, shared.receiver_event)
                &&& waits_anew ==> shared.receiver_event.next_id < usize::MAX
            }
        }),
{
}

/// What the coming and going of senders and of the receiver does. The last sender to go notifies
/// the receiver. When the receiver goes, all waiting senders are notified, nothing stays queued,
/// and the receiver's own task is woken if it waits.
pub proof fn law_sides_exact<T>(shared: mpsc::StateView<T>, waiter: Waiter)
    ensures
        ({
            let after = shared.with_sender();
            &&& shared.open && shared.senders < usize::MAX ==> after.senders == shared.senders + 1
            &&& !shared.open ==> after.senders == shared.senders
            &&& after == (mpsc::StateView { senders: after.senders, ..shared })
        }),
        ({
            let after = shared.without_sender();
            let last = shared.senders == 1;
            &&& shared.senders > 0 ==> after.senders == shared.senders - 1
            &&& after.receiver_event == (if last {
                shared.receiver_event.signaled(usize::MAX)
            } else {
                shared.receiver_event
            })
            &&& after == (mpsc::StateView {
                senders: after.senders,
                receiver_event: after.receiver_event,
                ..shared
            })
            &&& shared.without_sender_wakers() == (if last {
                shared.receiver_event.signaled_wakers(usize::MAX)
            } else {
                Seq::empty()
            })
        }),
        shared.without_send(waiter) == (mpsc::StateView {
            sender_event: wait::abandoned(waiter, shared.sender_event),
            ..shared
        }),
        shared.without_receiver(waiter) == (mpsc::StateView {
            receiver_event: wait::abandoned(waiter, shared.receiver_event.closed()),
            sender_event: shared.sender_event.signaled(usize::MAX).closed(),
            queue: Seq::empty(),
            open: false,
            ..shared
        }),
        shared.without_receiver_wakers() == shared.sender_event.signaled_wakers(usize::MAX)
            + entries::all_wakers(shared.receiver_event.listeners),
{
}

/// Room is announced: when the receiver yields a value out of a full queue while senders wait for
/// room, then in the state that this leaves some waiting sender holds a notification. If none held
/// one before, it is the earliest, and its waker is what the poll wakes.
pub proof fn law_room_is_announced<T>(shared: mpsc::StateView<T>, waiter: Waiter, waker: Waker)
    requires
        shared.receive_result(waiter) is Ready,
        shared.receive_result(waiter) != Poll::Ready(None::<T>),
        shared.queue.len() == shared.max_queue_size,
        shared.sender_event.listeners.len() > 0,
    ensures
        ({
            let after = shared.after_receive(waiter, waker).sender_event;
            let first = shared.sender_event.listeners[0];
            &&& exists|i: int|
                0 <= i < after.listeners.len() && (#[trigger] after.listeners[i]).value is Some
            &&& (forall|i: int|
                0 <= i < shared.sender_event.listeners.len() ==> (
                #[trigger] shared.sender_event.listeners[i]).value is None) ==> {
                &&& after.listeners[0].id == first.id
                &&& after.listeners[0].value is Some
                &&& first.waker matches Some(own) ==> shared.receive_wakers(waiter) == seq![own]
            }
        }),
{
    law_receive_poll_exact(shared, waiter, waker);
    exact::law_signal_next(shared.sender_event);
    let after = shared.after_receive(waiter, waker).sender_event;
    if forall|i: int|
        0 <= i < shared.sender_event.listeners.len() ==> (
        #[trigger] shared.sender_event.listeners[i]).value is None {
        assert(after.listeners[0].value is Some);
    } else {
        let i = choose|i: int|
            0 <= i < shared.sender_event.listeners.len() && (
            #[trigger] shared.sender_event.listeners[i]).value is Some;
        assert(after.listeners[i].value is Some);
    }
}

/// Data is announced: when a value goes into an empty queue while the receiver waits, by whichever
/// way of sending, then in the state that this leaves the receiver's listener, which is the
/// earliest, holds a notification, and its waker is what is woken.
pub proof fn law_data_is_announced<T>(
    shared: mpsc::StateView<T>,
    sender: Waiter,
    value: T,
    waker: Waker,
)
    requires
        shared.queue.len() == 0,
        shared.receiver_event.listeners.len() > 0,
        forall|i: int|
            0 <= i < shared.receiver_event.listeners.len() ==> (
            #[trigger] shared.receiver_event.listeners[i]).value is None,
    ensures
        ({
            let first = shared.receiver_event.listeners[0];
            let after = shared.after_send(sender, Some(value), waker).receiver_event;
            let tried = shared.pushed(value).receiver_event;
            &&& tried.listeners[0].value is Some
            &&& first.waker matches Some(own) ==> shared.pushed_wakers() == seq![own]
            &&& shared.send_result(sender) == Poll::Ready(Ok::<(), ChannelError>(())) ==> {
                &&& after.listeners[0].value is Some
                &&& first.waker matches Some(own) ==> shared.send_wakers(sender) == seq![own]
            }
        }),
{
    law_send_poll_exact(shared, sender, value, waker);
    exact::law_signal_next(shared.receiver_event);
}

/// A sender that is told to wait, whether for the first time or again, is left waiting with the
/// waker of this very poll.
pub proof fn law_send_wait_leaves_waker<T>(
    shared: mpsc::StateView<T>,
    waiter: Waiter,
    value: Option<T>,
    waker: Waker,
)
    requires
        shared.sender_event.wf(),
        wait::attached(waiter, shared.sender_event),
        shared.send_result(waiter) is Pending,
    ensures
        wait::exact::waits_with(
            shared.after_send(waiter, value, waker).sender_event,
            shared.send_waiter(waiter),
            waker,
        ),
{
    if !wait::ready(waiter, shared.sender_event) {
        wait::exact::law_parked_waits(waiter, shared.sender_event, waker);
    } else {
        wait::exact::law_listener_waits(wait::released(waiter, shared.sender_event), waker);
    }
}

/// A receiver that is told to wait, whether for the first time or again, is left waiting with the
/// waker of this very poll.
pub proof fn law_receive_wait_leaves_waker<T>(
    shared: mpsc::StateView<T>,
    waiter: Waiter,
    waker: Waker,
)
    requires
        shared.receiver_event.wf(),
        wait::attached(waiter, shared.receiver_event),
        shared.receive_result(waiter) is Pending,
    ensures
        wait::exact::waits_with(
            shared.after_receive(waiter, waker).receiver_event,
            shared.receive_waiter(waiter),
            waker,
        ),
{
    if !wait::ready(waiter, shared.receiver_event) {
        wait::exact::law_parked_waits(waiter, shared.receiver_event, waker);
    } else {
        wait::exact::law_listener_waits(wait::released(waiter, shared.receiver_event), waker);
    }
}

/// Whether no sender is forgotten: while the receiver is there and there is room, some of the
/// senders that wait, if there are any, holds a notification.
pub open spec fn senders_attended<T>(shared: mpsc::StateView<T>) -> bool {
    shared.open && shared.queue.len() < shared.max_queue_size
        && shared.sender_event.listeners.len() > 0 ==> exact::held(shared.sender_event.listeners)
        > 0
}

/// In a queue for one value no sender is forgotten, whatever is done to the channel. (In a longer
/// one, a sender that has been notified once may find and leave room for others without their
/// being told, since only taking a value out of a full queue notifies.)
pub proof fn law_single_slot_attends<T>(shared: mpsc::StateView<T>, step: Step<T>)
    requires
        shared.sender_event.wf(),
        shared.max_queue_size == 1,
        shared.queue.len() <= 1,
        step.possible(shared),
        senders_attended(shared),
    ensures
        senders_attended(step.after(shared)),
{
    let event = shared.sender_event;
    exact::lemma_held(event.listeners);
    exact::lemma_held(step.after(shared).sender_event.listeners);
    laws::law_signal_attends(event);
    match step {
        Step::PollSend { waiter: Some(id), waker, .. } => {
            if !wait::ready(Some(id), event) && laws::attended(event) {
                laws::law_waiting_attends(event, id, waker);
            }
        },
        Step::DropSend(Some(id)) => {
            if laws::attended(event) {
                laws::law_dropped_attends(event, id);
            }
        },
        _ => {},
    }
}

/// What the operations on a channel for one value do. Sending, or going without sending, notifies
/// the receiver of an empty channel; closing the receiver's side takes effect on an empty channel
/// only; receiving empties the channel.
pub proof fn law_oneshot_exact<T>(shared: oneshot::StateView<T>, value: Option<T>)
    ensures
        ({
            let after = shared.without_sender(value);
            let empty = shared.state == ChannelState::Empty;
            &&& after.value == (if empty {
                value
            } else {
                shared.value
            })
            &&& after.state == (if empty && value is Some {
                ChannelState::Full
            } else if empty {
                ChannelState::SenderClosed
            } else {
                shared.state
            })
            &&& after.event == (if empty {
                shared.event.signaled(1).closed()
            } else {
                shared.event.closed()
            })
            &&& shared.without_sender_wakers() == (if empty {
                shared.event.signaled_wakers(1) + entries::all_wakers(
                    shared.event.signaled(1).listeners,
                )
            } else {
                entries::all_wakers(shared.event.listeners)
            })
        }),
        shared.receiver_closed() == (if shared.state == ChannelState::Empty {
            oneshot::StateView { state: ChannelState::ReceiverClosed, value: None, ..shared }
        } else {
            shared
        }),
        shared.received() == (oneshot::StateView {
            state: ChannelState::Empty,
            value: None,
            ..shared
        }),
{
}

} // verus!
