//! What only this crate can implement.
use vstd::prelude::*;

verus! {

/// Keeps a trait from being implemented elsewhere.
pub trait Sealed {

}

} // verus!
