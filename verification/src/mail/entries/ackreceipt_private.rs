//! The AckReceiptPrivate entry.
use vstd::prelude::*;

verus! {

/// Entry representing an Acknowledgement Receipt private to the agent receiving the Mail.
#[derive(Debug, Clone, Copy, PartialEq, Eq, Structural)]
pub struct AckReceiptPrivate {}

impl AckReceiptPrivate {
    pub fn new() -> (a: AckReceiptPrivate)
        ensures
            a == (AckReceiptPrivate {}),
    {
        AckReceiptPrivate {}
    }
}

} // verus!
