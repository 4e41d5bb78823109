//! The PendingMail entry: a mail waiting on the DHT for its receipient.
use vstd::prelude::*;

verus! {

/// Entry representing a mail on the DHT waiting to be received.
/// It holds the serialized Mail encrypted for its receipient.
#[derive(Debug)]
pub struct PendingMail {
    pub encrypted_mail: String,
}

impl PendingMail {
    pub fn new(encrypted: String) -> (p: PendingMail)
        ensures
            p.encrypted_mail == encrypted,
    {
        PendingMail { encrypted_mail: encrypted }
    }

    /// Create a PendingMail from a Mail already serialized and encrypted for its
    /// receipient; the encryption itself is made by the host.
    pub fn create(encrypted_mail: String) -> (p: PendingMail)
        ensures
            p.encrypted_mail == encrypted_mail,
    {
        PendingMail::new(encrypted_mail)
    }
}

} // verus!
