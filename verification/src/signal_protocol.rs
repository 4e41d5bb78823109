//! Signals emitted to the user interface.
use vstd::prelude::*;

use crate::{Address, AgentAddress};
use crate::mail::entries::Mail;

verus! {

#[derive(Debug)]
pub enum SignalProtocol {
    ReceivedMail(ReceivedMail),
    ReceivedAck(ReceivedAck),
}

/// A mail arrived directly from `from`.
#[derive(Debug)]
pub struct ReceivedMail {
    pub from: AgentAddress,
    pub mail: Mail,
}

/// `from` acknowledged the mail authored at `for_mail`.
#[derive(Debug)]
pub struct ReceivedAck {
    pub from: AgentAddress,
    pub for_mail: Address,
}

} // verus!
