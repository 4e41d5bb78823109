//! The OutAck entry.
use vstd::prelude::*;

verus! {

/// Entry for an Acknowledgement Receipt of a Mail authored by this agent.
#[derive(Debug, Clone, Copy, PartialEq, Eq, Structural)]
pub struct OutAck {}

impl OutAck {
    pub fn new() -> (a: OutAck)
        ensures
            a == (OutAck {}),
    {
        OutAck {}
    }
}

} // verus!
