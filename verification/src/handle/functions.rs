//! Decisions of the handle zome functions.
use vstd::prelude::*;

use crate::handle::Handle;
use crate::mail::functions::send_mail::{is_success, is_success_reply};
use crate::protocol::DirectMessageProtocol;

verus! {

/// The names held by the versions of a Handle entry, in order.
pub fn get_my_handle_history(history: Vec<Handle>) -> (names: Vec<String>)
    ensures
        names.len() == history.len(),
        forall|i: int| 0 <= i < names.len() ==> #[trigger] names[i] == history[i].name,
{
    let mut names: Vec<String> = Vec::new();
    let mut i: usize = 0;
    while i < history.len()
        invariant
            i <= history.len(),
            names.len() == i,
            forall|j: int| 0 <= j < i ==> #[trigger] names[j] == history[j].name,
        decreases history.len() - i,
    {
        names.push(history[i].name.clone());
        i = i + 1;
    }
    names
}

/// An agent is online when it answers a Ping with `Success`; `None` stands for
/// no answer, or one that could not be read.
pub fn ping_agent(reply: &Option<DirectMessageProtocol>) -> (online: bool)
    ensures
        online == is_success(*reply),
{
    is_success_reply(reply)
}

} // verus!
