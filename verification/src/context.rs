//! What the host attests of an operation: its time, its caller and the
//! funds attached to it.

use vstd::prelude::*;

use crate::coin::Coin;
use crate::timestamp::Timestamp;

verus! {

/// What the host says of the moment at which an operation runs.
#[derive(Clone, Copy, Debug, PartialEq, Eq, Structural)]
pub struct Env {
    /// The one authoritative time of the operation.
    pub time: Timestamp,
}

/// What the host attests of the caller of an operation.
#[derive(Debug, PartialEq, Eq)]
pub struct MessageInfo {
    /// The authenticated identity of the caller.
    pub sender: String,
    /// The funds that were attached to the call.
    pub funds: Vec<Coin>,
}

} // verus!
