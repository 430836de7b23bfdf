//! The factory's side of its conversation with the stream contract.

use vstd::prelude::*;

use crate::address::Address;

verus! {

/// How a stream releases its deposit.
#[derive(Clone, Copy, Debug, PartialEq, Eq, Structural)]
pub enum StreamKind {
    Linear,
    CliffOnly,
}

/// The errors of the stream contract, as far as the factory tells them apart.
#[derive(Clone, Copy, Debug, PartialEq, Eq, Structural)]
pub enum ContractError {
    /// Stream creation is paused in the stream contract.
    ContractPaused,
    /// Any other error, by its number.
    Other(u32),
}

/// One `create_stream` call on a stream contract.
#[derive(Clone, Debug, PartialEq, Eq)]
pub struct StreamCall {
    /// The stream contract that is called.
    pub contract: Address,
    pub sender: Address,
    pub recipient: Address,
    pub deposit_amount: i128,
    pub rate_per_second: i128,
    pub start_time: u64,
    pub cliff_time: u64,
    pub end_time: u64,
    pub withdraw_dust_threshold: i128,
    pub memo: Option<Vec<u8>>,
    pub kind: StreamKind,
}

/// What came back from a [`StreamCall`].
#[derive(Clone, Copy, Debug, PartialEq, Eq, Structural)]
pub enum StreamReply {
    /// The stream was created under this id.
    Created(u64),
    /// The call returned, but what it returned is not a stream id.
    Unreadable,
    /// The stream contract refused with one of its own errors.
    Refused(ContractError),
    /// The call failed without an error of the stream contract.
    Aborted,
}

} // verus!
