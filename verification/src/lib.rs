//! SnapMail: mail entries, their validation rules and the decisions taken by
//! the zome functions, with the Holochain I/O left to the caller.
use vstd::prelude::*;

pub mod file;
pub mod handle;
pub mod hash;
pub mod mail;
pub mod protocol;
pub mod signal_protocol;
pub mod utils;
pub mod validation;

verus! {

/// Address of an entry on the source chain or the DHT (a base58 hash string).
pub type Address = String;

/// Address of an agent.
pub type AgentAddress = String;

} // verus!
