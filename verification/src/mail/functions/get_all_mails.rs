//! Listing the mails of the source chain.
use vstd::prelude::*;

use crate::{Address, AgentAddress};
use crate::mail::entries::{InMailState, MailItem, MailState, OutMailState};
use crate::mail::entries::inmail::InMail;
use crate::mail::entries::outmail::OutMail;

verus! {

/// State of a received mail: `Arrived` until this agent acknowledges it, then
/// `Acknowledged` until its author has got the acknowledgement, then `AckReceived`.
pub fn get_inmail_state(acknowledgment_links: usize, ack_received: bool) -> (state: InMailState)
    ensures
        state == if acknowledgment_links == 0 {
            InMailState::Arrived
        } else if ack_received {
            InMailState::AckReceived
        } else {
            InMailState::Acknowledged
        },
{
    if acknowledgment_links == 0 {
        InMailState::Arrived
    } else if ack_received {
        InMailState::AckReceived
    } else {
        InMailState::Acknowledged
    }
}

/// State of an authored mail, from its number of receipients, of `pending`
/// links (mails still waiting on the DHT) and of `receipt` links: `Pending`
/// while every receipient has a pending mail; partially arrived while some do;
/// arrived once none do; `Received` once every receipient has sent a receipt.
pub fn get_outmail_state(receipients: usize, pending_links: usize, receipt_links: usize) -> (state:
    OutMailState)
    ensures
        state == if pending_links >= receipients {
            OutMailState::Pending
        } else if pending_links > 0 {
            if receipt_links == 0 {
                OutMailState::PartiallyArrived_NoAcknowledgement
            } else {
                OutMailState::PartiallyArrived_PartiallyAcknowledged
            }
        } else if receipt_links == 0 {
            OutMailState::Arrived_NoAcknowledgement
        } else if receipt_links < receipients {
            OutMailState::Arrived_PartiallyAcknowledged
        } else {
            OutMailState::Received
        },
{
    if pending_links >= receipients {
        OutMailState::Pending
    } else if pending_links > 0 {
        if receipt_links == 0 {
            OutMailState::PartiallyArrived_NoAcknowledgement
        } else {
            OutMailState::PartiallyArrived_PartiallyAcknowledged
        }
    } else if receipt_links == 0 {
        OutMailState::Arrived_NoAcknowledgement
    } else if receipt_links < receipients {
        OutMailState::Arrived_PartiallyAcknowledged
    } else {
        OutMailState::Received
    }
}

/// The list item of a received mail: written by its sender, with no `bcc`.
pub fn inmail_item(address: Address, inmail: InMail, state: InMailState, date: i64) -> (item: MailItem)
    ensures
        item.address == address,
        item.author == inmail.from,
        item.mail == inmail.mail,
        item.state == MailState::In(state),
        item.bcc@ == Seq::<AgentAddress>::empty(),
        item.date == date,
{
    MailItem {
        address,
        author: inmail.from,
        mail: inmail.mail,
        state: MailState::In(state),
        bcc: Vec::new(),
        date,
    }
}

/// The list item of an authored mail: written by `author`, this agent, with its `bcc`.
pub fn outmail_item(
    address: Address,
    author: AgentAddress,
    outmail: OutMail,
    state: OutMailState,
    date: i64,
) -> (item: MailItem)
    ensures
        item.address == address,
        item.author == author,
        item.mail == outmail.mail,
        item.state == MailState::Out(state),
        item.bcc == outmail.bcc,
        item.date == date,
{
    MailItem { address, author, mail: outmail.mail, state: MailState::Out(state), bcc: outmail.bcc, date }
}

/// The mail at an address of the source chain: an InMail if the entry reads as
/// one, else an OutMail if it reads as one, else nothing.
pub fn get_mail(as_inmail: Option<InMail>, as_outmail: Option<OutMail>) -> (r: Option<
    Result<InMail, OutMail>,
>)
    ensures
        match as_inmail {
            Some(m) => r == Some(Ok::<InMail, OutMail>(m)),
            None => match as_outmail {
                Some(m) => r == Some(Err::<InMail, OutMail>(m)),
                None => r is None,
            },
        },
{
    if let Some(inmail) = as_inmail {
        return Some(Ok(inmail));
    }
    if let Some(outmail) = as_outmail {
        return Some(Err(outmail));
    }
    None
}

} // verus!
