//! Turning the PendingAcks linked to this agent's `ack_inbox` into InAcks.
use vstd::prelude::*;

use crate::Address;

verus! {

/// Where the handling of the current `ack_inbox` link stands.
#[derive(Clone, Copy, Debug, PartialEq, Eq, Structural)]
pub enum AckInboxStage {
    /// Read the PendingAck and its author.
    Fetch,
    /// Create an InAck for the OutMail and link it from the OutMail.
    CreateInAck,
    /// Remove the `ack_inbox` link to the PendingAck.
    RemoveLink,
    /// Delete the PendingAck entry.
    DeleteEntry,
}

/// What the caller does next.
#[derive(Debug)]
pub enum AckInboxAction {
    Fetch { pending_ack_address: Address },
    CreateInAck { pending_ack_address: Address, outmail_address: Address },
    RemoveLink { pending_ack_address: Address },
    DeleteEntry { pending_ack_address: Address },
    Done,
}

/// What the caller reports after an action.
#[derive(Debug)]
pub enum AckInboxEvent {
    /// The OutMail address held by the PendingAck, or `None` if it could not be read.
    Fetched { outmail_address: Option<Address> },
    InAckCreated { ok: bool },
    LinkRemoved { ok: bool },
    EntryDeleted { ok: bool },
}

/// Progress through the `ack_inbox` links of this agent.
#[derive(Debug)]
pub struct AckInboxScan {
    pub links: Vec<Address>,
    pub next: usize,
    pub stage: AckInboxStage,
    /// The OutMail of the PendingAck being handled.
    pub current: Option<Address>,
    pub updated_outmails: Vec<Address>,
}

impl AckInboxScan {
    pub open spec fn inv(&self) -> bool {
        &&& self.next <= self.links.len()
        &&& self.stage != AckInboxStage::Fetch ==> self.next < self.links.len()
        &&& (self.current is Some <==> self.stage == AckInboxStage::CreateInAck)
        &&& self.updated_outmails.len() <= self.next + if self.stage == AckInboxStage::RemoveLink
            || self.stage == AckInboxStage::DeleteEntry {
            1int
        } else {
            0
        }
    }

    pub open spec fn expected_action(&self) -> AckInboxAction {
        if self.next >= self.links.len() {
            AckInboxAction::Done
        } else {
            let pending_ack_address = self.links@[self.next as int];
            match self.stage {
                AckInboxStage::Fetch => AckInboxAction::Fetch { pending_ack_address },
                AckInboxStage::CreateInAck => AckInboxAction::CreateInAck {
                    pending_ack_address,
                    outmail_address: self.current->0,
                },
                AckInboxStage::RemoveLink => AckInboxAction::RemoveLink { pending_ack_address },
                AckInboxStage::DeleteEntry => AckInboxAction::DeleteEntry { pending_ack_address },
            }
        }
    }

    fn action(&self) -> (a: AckInboxAction)
        requires
            self.inv(),
        ensures
            a == self.expected_action(),
    {
        if self.next >= self.links.len() {
            AckInboxAction::Done
        } else {
            let pending_ack_address = self.links[self.next].clone();
            match self.stage {
                AckInboxStage::Fetch => AckInboxAction::Fetch { pending_ack_address },
                AckInboxStage::CreateInAck => {
                    let outmail_address = match &self.current {
                        Some(a) => a.clone(),
                        None => {
                            proof {
                                assert(false);
                            }
                            String::new()
                        },
                    };
                    AckInboxAction::CreateInAck { pending_ack_address, outmail_address }
                },
                AckInboxStage::RemoveLink => AckInboxAction::RemoveLink { pending_ack_address },
                AckInboxStage::DeleteEntry => AckInboxAction::DeleteEntry { pending_ack_address },
            }
        }
    }
}

/// Begin going through the `ack_inbox` links, given the PendingAck addresses they point to.
pub fn start_check_incoming_ack(links: Vec<Address>) -> (r: (AckInboxScan, AckInboxAction))
    ensures
        r.0.inv(),
        r.0.links == links,
        r.0.next == 0,
        r.0.stage == AckInboxStage::Fetch,
        r.0.updated_outmails@ == Seq::<Address>::empty(),
        r.1 == r.0.expected_action(),
{
    let scan = AckInboxScan {
        links,
        next: 0,
        stage: AckInboxStage::Fetch,
        current: None,
        updated_outmails: Vec::new(),
    };
    let action = scan.action();
    (scan, action)
}

/// One step through the `ack_inbox`. A link whose PendingAck cannot be read, or
/// for which no InAck can be made, is skipped. Once a new InAck is linked from
/// the OutMail, the OutMail is listed as updated, whatever removing the link and
/// deleting the PendingAck then give; a link that cannot be removed leaves its
/// PendingAck in place. An event that does not answer the expected action leaves
/// the scan as it is.
pub fn step_check_incoming_ack(scan: AckInboxScan, event: AckInboxEvent) -> (r: (
    AckInboxScan,
    AckInboxAction,
))
    requires
        scan.inv(),
    ensures
        r.0.inv(),
        r.1 == r.0.expected_action(),
        r.0.links == scan.links,
        ({
            let done = scan.next >= scan.links.len();
            let skip = r.0.next == scan.next + 1 && r.0.stage == AckInboxStage::Fetch
                && r.0.updated_outmails == scan.updated_outmails;
            let unchanged = r.0.next == scan.next && r.0.stage == scan.stage && r.0.current
                == scan.current && r.0.updated_outmails == scan.updated_outmails;
            if done {
                unchanged
            } else {
                match (scan.stage, event) {
                    (AckInboxStage::Fetch, AckInboxEvent::Fetched { outmail_address }) => match outmail_address {
                        Some(a) => r.0.next == scan.next && r.0.stage == AckInboxStage::CreateInAck
                            && r.0.current == Some(a) && r.0.updated_outmails
                            == scan.updated_outmails,
                        None => skip,
                    },
                    (AckInboxStage::CreateInAck, AckInboxEvent::InAckCreated { ok }) => if ok {
                        r.0.next == scan.next && r.0.stage == AckInboxStage::RemoveLink
                            && r.0.updated_outmails@ == scan.updated_outmails@.push(scan.current->0)
                    } else {
                        skip
                    },
                    (AckInboxStage::RemoveLink, AckInboxEvent::LinkRemoved { ok }) => if ok {
                        r.0.next == scan.next && r.0.stage == AckInboxStage::DeleteEntry
                            && r.0.updated_outmails == scan.updated_outmails
                    } else {
                        skip
                    },
                    (AckInboxStage::DeleteEntry, AckInboxEvent::EntryDeleted { .. }) => skip,
                    _ => unchanged,
                }
            }
        }),
{
    let mut scan = scan;
    if scan.next < scan.links.len() {
        match (scan.stage, event) {
            (AckInboxStage::Fetch, AckInboxEvent::Fetched { outmail_address }) => {
                match outmail_address {
                    Some(a) => {
                        scan.current = Some(a);
                        scan.stage = AckInboxStage::CreateInAck;
                    },
                    None => {
                        scan.next = scan.next + 1;
                    },
                }
            },
            (AckInboxStage::CreateInAck, AckInboxEvent::InAckCreated { ok }) => {
                let current = scan.current.take();
                if ok {
                    match current {
                        Some(a) => scan.updated_outmails.push(a),
                        None => {},
                    }
                    scan.stage = AckInboxStage::RemoveLink;
                } else {
                    scan.next = scan.next + 1;
                    scan.stage = AckInboxStage::Fetch;
                }
            },
            (AckInboxStage::RemoveLink, AckInboxEvent::LinkRemoved { ok }) => {
                if ok {
                    scan.stage = AckInboxStage::DeleteEntry;
                } else {
                    scan.next = scan.next + 1;
                    scan.stage = AckInboxStage::Fetch;
                }
            },
            (AckInboxStage::DeleteEntry, AckInboxEvent::EntryDeleted { .. }) => {
                scan.next = scan.next + 1;
                scan.stage = AckInboxStage::Fetch;
            },
            _ => {},
        }
    }
    let action = scan.action();
    (scan, action)
}

/// Each `ack_inbox` link updates at most one OutMail: when the scan is done, no
/// more OutMails were listed than there were links.
pub proof fn at_most_one_update_per_link(scan: AckInboxScan)
    requires
        scan.inv(),
        scan.expected_action() is Done,
    ensures
        scan.updated_outmails.len() <= scan.links.len(),
{
}

} // verus!
