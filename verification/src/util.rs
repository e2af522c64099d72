//! Small helpers.
use vstd::prelude::*;

verus! {

/// The next value of the stream, as a future.
pub fn next<T>(stream: &mut T) -> (next: Next<'_, T>)
    ensures
        *next.stream == *old(stream),
        *final(next.stream) == *final(stream),
{
    Next { stream }
}

/// The next value of a stream.
pub struct Next<'a, T> {
    /// The stream, to be polled.
    pub stream: &'a mut T,
}

} // verus!
