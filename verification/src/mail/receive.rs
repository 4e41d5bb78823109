//! Answers to the direct messages this agent receives.
use vstd::prelude::*;

use crate::protocol::DirectMessageProtocol;

verus! {

/// The answer to a MailMessage, once the InMail made of it has been committed
/// (or not): `Success` with an empty text, or `Failure`.
pub fn receive_direct_mail(inmail_committed: bool) -> (r: DirectMessageProtocol)
    ensures
        inmail_committed ==> (r matches DirectMessageProtocol::Success(s) && s@ == Seq::<char>::empty()),
        !inmail_committed ==> (r matches DirectMessageProtocol::Failure(s) && s@
            == "Failed committing InMail"@),
{
    if !inmail_committed {
        return DirectMessageProtocol::Failure("Failed committing InMail".to_owned());
    }
    DirectMessageProtocol::Success(String::new())
}

/// The answer to an AckMessage, once the InAck has been committed (or not):
/// `Success` with an empty text, or `Failure`.
pub fn receive_direct_ack(inack_committed: bool) -> (r: DirectMessageProtocol)
    ensures
        inack_committed ==> (r matches DirectMessageProtocol::Success(s) && s@ == Seq::<char>::empty()),
        !inack_committed ==> (r matches DirectMessageProtocol::Failure(s) && s@
            == "Failed committing InAck"@),
{
    if !inack_committed {
        return DirectMessageProtocol::Failure("Failed committing InAck".to_owned());
    }
    DirectMessageProtocol::Success(String::new())
}

} // verus!
