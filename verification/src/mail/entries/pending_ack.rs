//! The PendingAck entry.
use vstd::prelude::*;

use crate::Address;

verus! {

/// Entry representing an Acknowledgement Receipt on the DHT waiting to be received.
#[derive(Debug)]
pub struct PendingAck {
    pub outmail_address: Address,
}

impl PendingAck {
    pub fn new(outmail_address: Address) -> (a: PendingAck)
        ensures
            a.outmail_address == outmail_address,
    {
        PendingAck { outmail_address }
    }
}

} // verus!
