//! Whether the author of a received mail has got this agent's acknowledgement.
use vstd::prelude::*;

verus! {

/// Status of an entry version in its history.
#[derive(Clone, Copy, Debug, PartialEq, Eq, Structural)]
pub enum CrudStatus {
    Live,
    Rejected,
    Deleted,
    Modified,
    Locked,
}

/// Some version of the history is marked deleted.
pub open spec fn has_deleted(history: Seq<Option<CrudStatus>>) -> bool {
    exists|i: int| 0 <= i < history.len() && history[i] == Some(CrudStatus::Deleted)
}

/// An Ack is considered received if there is no pending link or the PendingAck
/// has a deleted status. Given the number of `acknowledgement` links of the
/// InMail, the number of `pending` links of its OutAck, and the statuses in the
/// PendingAck's history (`None` when no history was found).
pub fn has_ack_been_received(
    acknowledgement_links: usize,
    pending_links: usize,
    pending_history: &Option<Vec<Option<CrudStatus>>>,
) -> (r: Result<bool, String>)
    ensures
        acknowledgement_links < 1 ==> (r matches Err(e) && e@
            == "No acknowledgment has been sent for this mail"@),
        acknowledgement_links >= 1 && pending_links < 1 ==> r == Ok::<bool, String>(true),
        acknowledgement_links >= 1 && pending_links >= 1 ==> match pending_history {
            None => (r matches Err(e) && e@ == "No history found for PendingAck"@),
            Some(h) => r == Ok::<bool, String>(has_deleted(h@)),
        },
{
    if acknowledgement_links < 1 {
        return Err("No acknowledgment has been sent for this mail".to_owned());
    }
    if pending_links < 1 {
        return Ok(true);
    }
    match pending_history {
        None => Err("No history found for PendingAck".to_owned()),
        Some(history) => {
            let mut i: usize = 0;
            while i < history.len()
                invariant
                    acknowledgement_links >= 1,
                    pending_links >= 1,
                    *pending_history == Some(*history),
                    i <= history@.len(),
                    forall|j: int| 0 <= j < i ==> history@[j] != Some(CrudStatus::Deleted),
                decreases history@.len() - i,
            {
                if let Some(status) = history[i] {
                    if status == CrudStatus::Deleted {
                        assert(history@[i as int] == Some(CrudStatus::Deleted));
                        return Ok(true);
                    }
                }
                i = i + 1;
            }
            Ok(false)
        },
    }
}

} // verus!
