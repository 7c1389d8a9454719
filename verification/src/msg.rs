//! Requests accepted by the three entry points, and the answer to a read.

use vstd::prelude::*;

verus! {

/// Instantiation request. The count is accepted and never consulted.
#[derive(Clone, Copy, Debug, PartialEq, Eq, Structural)]
pub struct InitMsg {
    pub count: Option<u32>,
}

/// Execute request.
#[derive(Clone, Copy, Debug, PartialEq, Eq, Structural)]
pub enum HandleMsg {
    /// Delete the flag.
    Remove {},
}

/// Query request.
#[derive(Clone, Copy, Debug, PartialEq, Eq, Structural)]
pub enum QueryMsg {
    /// Read the flag back.
    Read {},
}

/// Answer to `QueryMsg::Read`: the stored flag.
#[derive(Clone, Copy, Debug, PartialEq, Eq, Structural)]
pub struct ReadResponse {
    pub val: bool,
}

} // verus!
