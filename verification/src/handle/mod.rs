//! The username ("handle") of an agent.
use vstd::prelude::*;

pub mod functions;
pub mod validation;

verus! {

/// Entry representing the username of an Agent.
#[derive(Debug)]
pub struct Handle {
    pub name: String,
}

impl Handle {
    pub fn new(name: String) -> (h: Handle)
        ensures
            h.name == name,
    {
        Handle { name }
    }
}

} // verus!
