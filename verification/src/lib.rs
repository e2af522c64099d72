//! Building blocks for asynchronous code on one thread: events and emitters, channels, locks, and
//! an executor.
//!
//! The values in this crate are plain state machines. What several tasks share is one value that
//! is passed to each operation by reference; what a task holds is a handle that names its part
//! of it. No operation wakes a task by itself: the wakers of the tasks that are to be woken are
//! added, in order, to a list that the caller hands in and empties.
pub mod atom;
pub mod cell;
pub mod channel;
pub mod emitter;
pub mod event;
pub mod executor;
mod internal;
pub mod lock;
pub mod poll_lock;
pub mod spawner;
pub mod task;
pub mod upgrade;
pub mod util;
pub mod wait;
pub mod waitgroup;

pub use self::atom::{Atom, WeakAtom};
pub use self::upgrade::{Downgrade, Upgrade};
