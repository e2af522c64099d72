//! The types of `core::task` that tasks and what they wait for have in common.
use vstd::prelude::*;

verus! {

/// Declares `core::task::Waker`, the handle by which a task is woken. Nothing is claimed of it: a
/// waker is carried from the task that leaves it to the caller that wakes it.
#[verifier::external_type_specification]
#[verifier::external_body]
pub struct ExWaker(core::task::Waker);

/// Declares `core::task::Poll`, the outcome of polling a task, with its two variants and nothing
/// beyond them.
#[verifier::external_type_specification]
#[verifier::reject_recursive_types(T)]
pub struct ExPoll<T>(core::task::Poll<T>);

} // verus!
