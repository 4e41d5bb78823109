//! Entry types of the mail part of the DNA.
use vstd::prelude::*;

pub mod ackreceipt_encrypted;
pub mod ackreceipt_private;
pub mod inack;
pub mod inmail;
pub mod outack;
pub mod outmail;
pub mod pending_ack;
pub mod pending_mail;

use crate::{Address, AgentAddress};

verus! {

/// Life cycle of a received mail.
#[derive(Clone, Copy, Debug, PartialEq, Eq, Structural)]
pub enum InMailState {
    /// PendingMail available
    Incoming,
    /// InMail written, no PendingMail
    Arrived,
    /// OutAck written, PendingAck available
    Acknowledged,
    /// OutAck written, no PendingAck
    AckReceived,
    Deleted,
}

/// Life cycle of an authored mail.
#[allow(non_camel_case_types)]
#[derive(Clone, Copy, Debug, PartialEq, Eq, Structural)]
pub enum OutMailState {
    /// Has a pending link for each receipient
    Pending,
    /// Has less pending links than receipients, and no receipt links
    PartiallyArrived_NoAcknowledgement,
    /// Has less pending links than receipients, and less receipt links than receipients
    PartiallyArrived_PartiallyAcknowledged,
    /// Has no pending links, and a receipt link for each receipient
    Arrived_NoAcknowledgement,
    /// Has no pending links, and less receipt links than receipients
    Arrived_PartiallyAcknowledged,
    /// Has no pending links, and a receipt link for each receipient
    Received,
    Deleted,
}

#[derive(Clone, Copy, Debug, PartialEq, Eq, Structural)]
pub enum MailState {
    In(InMailState),
    Out(OutMailState),
}

/// How a receipient was addressed.
#[derive(Clone, Copy, Debug, PartialEq, Eq, Structural)]
pub enum ReceipientKind {
    TO,
    CC,
    BCC,
}

/// Core content of all *Mail entries.
/// A Mail can have zero public receipient (but must have at least one public or private receipient).
#[derive(Debug)]
pub struct Mail {
    pub date_sent: u64,
    pub subject: String,
    pub payload: String,
    pub to: Vec<AgentAddress>,
    pub cc: Vec<AgentAddress>,
}

impl Mail {
    pub fn new(
        date_sent: u64,
        subject: String,
        payload: String,
        to: Vec<AgentAddress>,
        cc: Vec<AgentAddress>,
    ) -> (m: Mail)
        ensures
            m.date_sent == date_sent,
            m.subject == subject,
            m.payload == payload,
            m.to == to,
            m.cc == cc,
    {
        Mail { date_sent, subject, payload, to, cc }
    }
}

/// A mail as listed to the user: where it is, who wrote it, its content and state.
#[derive(Debug)]
pub struct MailItem {
    pub address: Address,
    pub author: AgentAddress,
    pub mail: Mail,
    pub state: MailState,
    pub bcc: Vec<AgentAddress>,
    pub date: i64,
}

} // verus!
