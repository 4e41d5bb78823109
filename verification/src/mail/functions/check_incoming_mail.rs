//! Turning the PendingMails linked to this agent's inbox into InMails.
use vstd::prelude::*;

use crate::Address;

verus! {

/// This agent must have a Handle: its address is where the inbox links hang.
pub fn require_handle(my_handle_address: Option<Address>) -> (r: Result<Address, String>)
    ensures
        match r {
            Ok(a) => my_handle_address == Some(a),
            Err(e) => my_handle_address is None && e@ == "This agent does not have a Handle set up"@,
        },
{
    match my_handle_address {
        Some(a) => Ok(a),
        None => Err("This agent does not have a Handle set up".to_owned()),
    }
}

/// Where the handling of the current inbox link stands.
#[derive(Clone, Copy, Debug, PartialEq, Eq, Structural)]
pub enum MailInboxStage {
    /// Read the PendingMail and its author, and turn it into an InMail.
    Fetch,
    /// Commit the InMail.
    Commit,
    /// Remove the `mail_inbox` link to the PendingMail.
    RemoveLink,
    /// Delete the PendingMail entry.
    DeleteEntry,
}

/// What the caller does next.
#[derive(Debug)]
pub enum MailInboxAction {
    Fetch { pending_address: Address },
    Commit { pending_address: Address },
    RemoveLink { pending_address: Address },
    DeleteEntry { pending_address: Address },
    Done,
}

/// What the caller reports after an action.
#[derive(Debug)]
pub enum MailInboxEvent {
    /// Whether the PendingMail could be read and turned into an InMail.
    Fetched { ok: bool },
    /// The address of the committed InMail, or `None` if committing failed.
    Committed { address: Option<Address> },
    LinkRemoved { ok: bool },
    EntryDeleted { ok: bool },
}

/// Progress through the `mail_inbox` links of this agent.
#[derive(Debug)]
pub struct MailInboxScan {
    pub links: Vec<Address>,
    pub next: usize,
    pub stage: MailInboxStage,
    pub new_inmails: Vec<Address>,
}

impl MailInboxScan {
    pub open spec fn inv(&self) -> bool {
        &&& self.next <= self.links.len()
        &&& self.stage != MailInboxStage::Fetch ==> self.next < self.links.len()
        &&& self.new_inmails.len() <= self.next + if self.stage == MailInboxStage::RemoveLink
            || self.stage == MailInboxStage::DeleteEntry {
            1int
        } else {
            0
        }
    }

    pub open spec fn expected_action(&self) -> MailInboxAction {
        if self.next >= self.links.len() {
            MailInboxAction::Done
        } else {
            let pending_address = self.links@[self.next as int];
            match self.stage {
                MailInboxStage::Fetch => MailInboxAction::Fetch { pending_address },
                MailInboxStage::Commit => MailInboxAction::Commit { pending_address },
                MailInboxStage::RemoveLink => MailInboxAction::RemoveLink { pending_address },
                MailInboxStage::DeleteEntry => MailInboxAction::DeleteEntry { pending_address },
            }
        }
    }

    fn action(&self) -> (a: MailInboxAction)
        requires
            self.inv(),
        ensures
            a == self.expected_action(),
    {
        if self.next >= self.links.len() {
            MailInboxAction::Done
        } else {
            let pending_address = self.links[self.next].clone();
            match self.stage {
                MailInboxStage::Fetch => MailInboxAction::Fetch { pending_address },
                MailInboxStage::Commit => MailInboxAction::Commit { pending_address },
                MailInboxStage::RemoveLink => MailInboxAction::RemoveLink { pending_address },
                MailInboxStage::DeleteEntry => MailInboxAction::DeleteEntry { pending_address },
            }
        }
    }
}

/// Begin going through the `mail_inbox` links, given the PendingMail addresses they point to.
pub fn start_check_incoming_mail(links: Vec<Address>) -> (r: (MailInboxScan, MailInboxAction))
    ensures
        r.0.inv(),
        r.0.links == links,
        r.0.next == 0,
        r.0.stage == MailInboxStage::Fetch,
        r.0.new_inmails@ == Seq::<Address>::empty(),
        r.1 == r.0.expected_action(),
{
    let scan = MailInboxScan { links, next: 0, stage: MailInboxStage::Fetch, new_inmails: Vec::new() };
    let action = scan.action();
    (scan, action)
}

/// One step through the inbox. A link whose PendingMail cannot be read or whose
/// InMail cannot be committed is skipped; a committed InMail is listed at once;
/// a failure to remove the link skips the deletion of the PendingMail. An event
/// that does not answer the expected action leaves the scan as it is.
pub fn step_check_incoming_mail(scan: MailInboxScan, event: MailInboxEvent) -> (r: (
    MailInboxScan,
    MailInboxAction,
))
    requires
        scan.inv(),
    ensures
        r.0.inv(),
        r.1 == r.0.expected_action(),
        r.0.links == scan.links,
        ({
            let done = scan.next >= scan.links.len();
            let skip = r.0.next == scan.next + 1 && r.0.stage == MailInboxStage::Fetch
                && r.0.new_inmails == scan.new_inmails;
            let unchanged = r.0.next == scan.next && r.0.stage == scan.stage && r.0.new_inmails
                == scan.new_inmails;
            let advance = |s: MailInboxStage|
                r.0.next == scan.next && r.0.stage == s && r.0.new_inmails == scan.new_inmails;
            if done {
                unchanged
            } else {
                match (scan.stage, event) {
                    (MailInboxStage::Fetch, MailInboxEvent::Fetched { ok }) => if ok {
                        advance(MailInboxStage::Commit)
                    } else {
                        skip
                    },
                    (MailInboxStage::Commit, MailInboxEvent::Committed { address }) => match address {
                        Some(a) => r.0.next == scan.next && r.0.stage == MailInboxStage::RemoveLink
                            && r.0.new_inmails@ == scan.new_inmails@.push(a),
                        None => skip,
                    },
                    (MailInboxStage::RemoveLink, MailInboxEvent::LinkRemoved { ok }) => if ok {
                        advance(MailInboxStage::DeleteEntry)
                    } else {
                        skip
                    },
                    (MailInboxStage::DeleteEntry, MailInboxEvent::EntryDeleted { .. }) => skip,
                    _ => unchanged,
                }
            }
        }),
{
    let mut scan = scan;
    if scan.next < scan.links.len() {
        match (scan.stage, event) {
            (MailInboxStage::Fetch, MailInboxEvent::Fetched { ok }) => {
                if ok {
                    scan.stage = MailInboxStage::Commit;
                } else {
                    scan.next = scan.next + 1;
                }
            },
            (MailInboxStage::Commit, MailInboxEvent::Committed { address }) => {
                match address {
                    Some(a) => {
                        scan.new_inmails.push(a);
                        scan.stage = MailInboxStage::RemoveLink;
                    },
                    None => {
                        scan.next = scan.next + 1;
                        scan.stage = MailInboxStage::Fetch;
                    },
                }
            },
            (MailInboxStage::RemoveLink, MailInboxEvent::LinkRemoved { ok }) => {
                if ok {
                    scan.stage = MailInboxStage::DeleteEntry;
                } else {
                    scan.next = scan.next + 1;
                    scan.stage = MailInboxStage::Fetch;
                }
            },
            (MailInboxStage::DeleteEntry, MailInboxEvent::EntryDeleted { .. }) => {
                scan.next = scan.next + 1;
                scan.stage = MailInboxStage::Fetch;
            },
            _ => {},
        }
    }
    let action = scan.action();
    (scan, action)
}

/// Each inbox link yields at most one InMail: when the scan is done, no more
/// InMails were listed than there were links.
pub proof fn at_most_one_inmail_per_link(scan: MailInboxScan)
    requires
        scan.inv(),
        scan.expected_action() is Done,
    ensures
        scan.new_inmails.len() <= scan.links.len(),
{
}

} // verus!
