//! The AckReceiptEncrypted entry.
use vstd::prelude::*;

use crate::Address;

verus! {

/// Entry representing an Acknowledgement Receipt on the DHT waiting to be received.
#[derive(Debug)]
pub struct AckReceiptEncrypted {
    pub outmail_address: Address,
}

impl AckReceiptEncrypted {
    pub fn new(outmail_address: Address) -> (a: AckReceiptEncrypted)
        ensures
            a.outmail_address == outmail_address,
    {
        AckReceiptEncrypted { outmail_address }
    }
}

} // verus!
