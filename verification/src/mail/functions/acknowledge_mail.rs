//! Acknowledging a received mail.
use vstd::prelude::*;

verus! {

/// The verdict on acknowledging a received mail that has `private_links`
/// private and `encrypted_links` encrypted receipt links: only a mail with
/// neither may be acknowledged.
pub open spec fn ack_verdict(private_links: nat, encrypted_links: nat) -> Result<(), Seq<char>> {
    if private_links > 0 {
        Err("Mail has already been acknowledged (private)"@)
    } else if encrypted_links > 0 {
        Err("Mail has already been acknowledged (encrypted)"@)
    } else {
        Ok(())
    }
}

/// Whether a received mail may be acknowledged, given how many private and
/// encrypted receipt links it already has. Acknowledging a mail writes one
/// encrypted receipt link from it.
pub fn acknowledge_mail(receipt_private_links: usize, receipt_encrypted_links: usize) -> (r: Result<
    (),
    String,
>)
    ensures
        crate::validation::verdict_view(r) == ack_verdict(
            receipt_private_links as nat,
            receipt_encrypted_links as nat,
        ),
{
    if receipt_private_links > 0 {
        return Err("Mail has already been acknowledged (private)".to_owned());
    }
    if receipt_encrypted_links > 0 {
        return Err("Mail has already been acknowledged (encrypted)".to_owned());
    }
    Ok(())
}

/// A received mail is acknowledged at most once: once an acknowledgement has
/// written its encrypted receipt link, acknowledging the mail again is refused,
/// whatever other receipt links it has.
pub proof fn acknowledged_at_most_once(private_links: nat, encrypted_links: nat)
    requires
        ack_verdict(private_links, encrypted_links) is Ok,
    ensures
        ack_verdict(private_links, encrypted_links + 1) == Err::<(), Seq<char>>(
            "Mail has already been acknowledged (encrypted)"@,
        ),
        forall|more_private: nat, more_encrypted: nat|
            #![trigger ack_verdict(private_links + more_private, encrypted_links + 1 + more_encrypted)]
            ack_verdict(private_links + more_private, encrypted_links + 1 + more_encrypted) is Err,
{
}

} // verus!
