//! Channels between tasks.
use vstd::prelude::*;

pub mod exact;
pub mod laws;
pub mod mpsc;
pub mod oneshot;

verus! {

/// The other side of a channel is gone.
#[derive(Debug, PartialEq, Eq, Structural)]
pub struct ChannelError;

impl ChannelError {
    /// What the error says.
    pub fn to_string(&self) -> (text: String)
        ensures
            text@ == "channel closed"@,
    {
        "channel closed".to_owned()
    }
}

} // verus!
