//! The InAck entry.
use vstd::prelude::*;

verus! {

/// Entry for a received Acknowledgement Receipt.
#[derive(Debug, Clone, Copy, PartialEq, Eq, Structural)]
pub struct InAck {}

impl InAck {
    pub fn new() -> (a: InAck)
        ensures
            a == (InAck {}),
    {
        InAck {}
    }
}

} // verus!
