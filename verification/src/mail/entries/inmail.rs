//! The InMail entry: a mail received by this agent.
use vstd::prelude::*;

use super::Mail;
use crate::AgentAddress;
use crate::protocol::MailMessage;

verus! {

/// Entry representing a received mail. It is private.
#[derive(Debug)]
pub struct InMail {
    pub mail: Mail,
    pub from: AgentAddress,
    pub date_received: u64,
}

impl InMail {
    pub fn new(mail: Mail, from: AgentAddress, date_received: u64) -> (m: InMail)
        ensures
            m.mail == mail,
            m.from == from,
            m.date_received == date_received,
    {
        InMail { mail, from, date_received }
    }

    /// The InMail for a mail delivered directly by `from`.
    pub fn from_direct(from: AgentAddress, mail_msg: MailMessage, date_received: u64) -> (m: InMail)
        ensures
            m.mail == mail_msg.mail,
            m.from == from,
            m.date_received == date_received,
    {
        InMail::new(mail_msg.mail, from, date_received)
    }
}

} // verus!
