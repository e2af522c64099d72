//! What a whole poll of a sink behind a mutex does.
use core::task::{Poll, Waker};

use vstd::prelude::*;

use super::{SinkCall, SinkOp, SinkStage, SinkStep, SinkView};
use crate::wait;

verus! {

/// What a poll for `op` has to ask of the sink behind the mutex, in this order: to take the item
/// that waits, if there is one, and then, to flush or to close if that is what is wanted.
pub open spec fn calls_for<M>(op: SinkOp, slot: Option<M>) -> Seq<SinkCall<M>> {
    (match slot {
        Some(item) => seq![SinkCall::PollReady, SinkCall::StartSend(item)],
        None => Seq::<SinkCall<M>>::empty(),
    }) + (match op {
        SinkOp::Ready => Seq::<SinkCall<M>>::empty(),
        SinkOp::Flush => seq![SinkCall::PollFlush],
        SinkOp::Close => seq![SinkCall::PollClose],
    })
}

/// The sink after a poll for `op` has begun and these answers have been given.
pub open spec fn sink_after<T, M, E>(
    sink: SinkView<T, M>,
    op: SinkOp,
    waker: Waker,
    answers: Seq<Poll<Result<(), E>>>,
) -> SinkView<T, M>
    decreases answers.len(),
{
    if answers.len() == 0 {
        sink.begun(op, waker)
    } else {
        sink_after(sink, op, waker, answers.drop_last()).continued(answers.last())
    }
}

/// How a poll for `op` goes on after these answers.
pub open spec fn sink_step<T, M, E>(
    sink: SinkView<T, M>,
    op: SinkOp,
    waker: Waker,
    answers: Seq<Poll<Result<(), E>>>,
) -> SinkStep<M, E> {
    if answers.len() == 0 {
        sink.first_step(op)
    } else {
        sink_after(sink, op, waker, answers.drop_last()).next_step(answers.last())
    }
}

/// Whether an answer lets a poll go on.
pub open spec fn is_fine<E>(answer: Poll<Result<(), E>>) -> bool {
    answer matches Poll::Ready(result) && result is Ok
}

/// Without the lock nothing is asked of the sink behind the mutex: a poll that needs the lock and
/// does not get it waits for it, and one that needs nothing is done at once. Only a poll to become
/// ready with nothing to pass on needs nothing.
pub proof fn law_sink_without_lock<T, M, E>(sink: SinkView<T, M>, op: SinkOp, waker: Waker)
    ensures
        op == SinkOp::Ready && sink.slot is None ==> {
            &&& sink.first_step::<E>(op) matches SinkStep::Return(result) && is_fine(result)
            &&& sink.begun(op, waker) == sink
            &&& sink.begun_wakers(op).len() == 0
        },
        !(op == SinkOp::Ready && sink.slot is None) ==> {
            let granted = wait::ready(sink.waiter, sink.mutex.event) && !sink.mutex.locked;
            &&& !granted ==> sink.first_step::<E>(op) == SinkStep::<M, E>::Return(Poll::Pending)
            &&& granted ==> sink.first_step::<E>(op) == SinkStep::<M, E>::Call(
                calls_for(op, sink.slot)[0],
            )
            &&& sink.begun(op, waker).mutex == sink.mutex.polled(sink.waiter, waker)
            &&& sink.begun(op, waker).waiter == sink.mutex.polled_waiter(sink.waiter)
            &&& sink.begun(op, waker).slot == sink.slot
            &&& sink.begun_wakers(op) == sink.mutex.polled_wakers(sink.waiter)
            &&& sink.stage == SinkStage::Idle ==> (sink.begun(op, waker).stage == SinkStage::Idle
                <==> !granted)
        },
        sink.pollable(op) <==> sink.stage == SinkStage::Idle && (op == SinkOp::Ready
            && sink.slot is None || sink.mutex.pollable(sink.waiter)),
{
}

/// What a poll that gets the lock does: while the answers are fine, it asks for one call after
/// another, exactly those that it has to, and once all have been answered it is done. The lock is
/// held all the while, and given back with the result.
pub proof fn law_sink_poll<T, M, E>(
    sink: SinkView<T, M>,
    op: SinkOp,
    waker: Waker,
    answers: Seq<Poll<Result<(), E>>>,
)
    requires
        !(op == SinkOp::Ready && sink.slot is None),
        sink.mutex.grants(sink.waiter),
        answers.len() <= calls_for(op, sink.slot).len(),
        forall|n: int| 0 <= n < answers.len() ==> is_fine(#[trigger] answers[n]),
    ensures
        ({
            let calls = calls_for(op, sink.slot);
            let step = sink_step(sink, op, waker, answers);
            let after = sink_after(sink, op, waker, answers);
            let n = answers.len() as int;
            &&& n < calls.len() ==> {
                &&& step == SinkStep::<M, E>::Call(calls[n])
                &&& after.mutex == sink.mutex.polled(sink.waiter, waker)
                &&& after.mutex.locked
                &&& after.stage != SinkStage::Idle
            }
            &&& n == calls.len() ==> {
                &&& step == SinkStep::<M, E>::Return(answers[n - 1])
                &&& after.mutex == sink.mutex.polled(sink.waiter, waker).unlocked()
                &&& after.stage == SinkStage::Idle
            }
            &&& after.slot == (if n >= 2 || (n == 1 && sink.slot is Some) {
                None
            } else {
                sink.slot
            })
            &&& after.waiter is None
        }),
    decreases answers.len(),
{
    let calls = calls_for(op, sink.slot);
    if answers.len() > 0 {
        let before = answers.drop_last();
        assert forall|n: int| 0 <= n < before.len() implies is_fine(#[trigger] before[n]) by {
            assert(before[n] == answers[n]);
        }
        law_sink_poll(sink, op, waker, before);
        assert(is_fine(answers[answers.len() - 1]));
        if before.len() > 0 {
            let earlier = before.drop_last();
            assert forall|n: int| 0 <= n < earlier.len() implies is_fine(#[trigger] earlier[n]) by {
                assert(earlier[n] == answers[n]);
            }
            law_sink_poll(sink, op, waker, earlier);
        }
        lemma_sink_stage(sink, op, waker, before);
    }
}

/// Which call is under way after a number of fine answers.
proof fn lemma_sink_stage<T, M, E>(
    sink: SinkView<T, M>,
    op: SinkOp,
    waker: Waker,
    answers: Seq<Poll<Result<(), E>>>,
)
    requires
        !(op == SinkOp::Ready && sink.slot is None),
        sink.mutex.grants(sink.waiter),
        answers.len() < calls_for(op, sink.slot).len(),
        forall|n: int| 0 <= n < answers.len() ==> is_fine(#[trigger] answers[n]),
    ensures
        sink_after(sink, op, waker, answers).stage == (match sink.slot {
            Some(_) => if answers.len() == 0 {
                SinkStage::Readying(op)
            } else if answers.len() == 1 {
                SinkStage::Sending(op)
            } else {
                SinkStage::Finishing
            },
            None => SinkStage::Finishing,
        }),
        answers.len() == 0 ==> sink_after(sink, op, waker, answers).slot == sink.slot,
    decreases answers.len(),
{
    if answers.len() > 0 {
        let before = answers.drop_last();
        assert forall|n: int| 0 <= n < before.len() implies is_fine(#[trigger] before[n]) by {
            assert(before[n] == answers[n]);
        }
        assert(is_fine(answers[answers.len() - 1]));
        lemma_sink_stage(sink, op, waker, before);
    }
}

/// An answer that is not fine is the result, at once, with the lock given back. An item that had
/// not been sent yet stays where it is.
pub proof fn law_sink_stops<T, M, E>(
    sink: SinkView<T, M>,
    op: SinkOp,
    waker: Waker,
    answers: Seq<Poll<Result<(), E>>>,
    answer: Poll<Result<(), E>>,
)
    requires
        !(op == SinkOp::Ready && sink.slot is None),
        sink.mutex.grants(sink.waiter),
        answers.len() < calls_for(op, sink.slot).len(),
        forall|n: int| 0 <= n < answers.len() ==> is_fine(#[trigger] answers[n]),
        !is_fine(answer),
    ensures
        ({
            let before = sink_after(sink, op, waker, answers);
            &&& before.next_step(answer) == SinkStep::<M, E>::Return(answer)
            &&& before.continued(answer).mutex == before.mutex.unlocked()
            &&& before.continued(answer).stage == SinkStage::Idle
            &&& before.continued(answer).slot == before.slot
            &&& before.continued(answer).waiter == before.waiter
            &&& before.continued_wakers(answer) == before.mutex.event.signaled_wakers(1)
        }),
{
    law_sink_poll(sink, op, waker, answers);
}

/// A poll to flush or to close reports success only if the sink behind the mutex was asked, in this
/// very poll and last of all, to flush or to close, and reported success.
pub proof fn law_sink_success<T, M, E>(
    sink: SinkView<T, M>,
    op: SinkOp,
    waker: Waker,
    answers: Seq<Poll<Result<(), E>>>,
)
    requires
        op != SinkOp::Ready,
        answers.len() <= calls_for(op, sink.slot).len(),
        forall|n: int| 0 <= n < answers.len() ==> is_fine(#[trigger] answers[n]),
        answers.len() > 0 ==> sink.mutex.grants(sink.waiter),
        sink_step(sink, op, waker, answers) matches SinkStep::Return(result) && is_fine(result),
    ensures
        answers.len() > 0,
        is_fine(answers.last()),
        sink_step(sink, op, waker, answers.drop_last()) == SinkStep::<M, E>::Call(
            if op == SinkOp::Close {
                SinkCall::PollClose
            } else {
                SinkCall::PollFlush
            },
        ),
{
    law_sink_without_lock::<T, M, E>(sink, op, waker);
    if answers.len() > 0 {
        law_sink_poll(sink, op, waker, answers);
        let before = answers.drop_last();
        assert forall|n: int| 0 <= n < before.len() implies is_fine(#[trigger] before[n]) by {
            assert(before[n] == answers[n]);
        }
        law_sink_poll(sink, op, waker, before);
        let calls = calls_for(op, sink.slot);
        assert(calls[calls.len() - 1] == (if op == SinkOp::Close {
            SinkCall::<M>::PollClose
        } else {
            SinkCall::<M>::PollFlush
        }));
    }
}

/// Going on wakes exactly the task that giving the lock back notifies, and nobody while the lock is
/// held.
pub proof fn law_sink_wakers<T, M, E>(sink: SinkView<T, M>, answer: Poll<Result<(), E>>)
    ensures
        sink.continued_wakers(answer) == (if sink.next_step(answer) is Return {
            sink.mutex.event.signaled_wakers(1)
        } else {
            Seq::empty()
        }),
        sink.next_step(answer) is Return ==> sink.continued(answer).mutex
            == sink.mutex.unlocked(),
        sink.next_step(answer) is Call ==> sink.continued(answer).mutex == sink.mutex,
        sink.continued(answer).waiter == sink.waiter,
{
}

} // verus!
