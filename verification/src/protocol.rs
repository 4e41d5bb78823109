//! Direct messages exchanged between agents.
use vstd::prelude::*;

use crate::Address;
use crate::mail::entries::Mail;

verus! {

/// A direct message between two agents, or the answer to one.
#[derive(Debug)]
pub enum DirectMessageProtocol {
    Mail(MailMessage),
    Ack(AckMessage),
    Failure(String),
    Success(String),
    Ping,
}

/// A mail delivered directly to one of its receipients.
#[derive(Debug)]
pub struct MailMessage {
    pub outmail_address: Address,
    pub mail: Mail,
}

/// An acknowledgement delivered directly to the author of a mail.
#[derive(Debug)]
pub struct AckMessage {
    pub outmail_address: Address,
}

} // verus!
