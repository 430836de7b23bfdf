//! Why a factory call fails or stops.

use vstd::prelude::*;

use crate::address::Address;
use crate::stream::StreamCall;

verus! {

/// The errors a factory reports.
///
/// Clients decode errors by [`FactoryError::code`]; new variants are appended with
/// the next number and no number is ever reassigned.
#[derive(Clone, Copy, Debug, PartialEq, Eq, Structural)]
pub enum FactoryError {
    AlreadyInitialized,
    NotInitialized,
    /// Reserved; a missing authorization aborts the invocation instead.
    Unauthorized,
    RecipientNotAllowlisted,
    DepositExceedsCap,
    DurationTooShort,
    /// The requested stream must end strictly after it starts.
    InvalidTimeRange,
    /// The requested cliff must be within the inclusive start/end window.
    InvalidCliff,
    /// Factory stream creation is currently paused by admin.
    CreationPaused,
    /// The downstream stream contract rejected creation because it is paused.
    StreamContractPaused,
    /// The downstream stream contract rejected creation for a reason other than paused.
    StreamContractError,
    /// Reserved for a rate below an accepted minimum.
    RateBelowMin,
    /// Reserved for a rate above an accepted maximum.
    RateAboveMax,
    /// The deposit cap must be positive.
    InvalidCap,
    /// The minimum duration exceeds the accepted ceiling.
    InvalidMinDuration,
    /// Reserved for a memo that is too long.
    InvalidMemo,
}

/// The number of error codes in use; they run from 1 to this.
pub const FACTORY_ERROR_COUNT: u32 = 16;

impl FactoryError {
    /// The stable number of each error.
    pub open spec fn spec_code(self) -> u32 {
        match self {
            FactoryError::AlreadyInitialized => 1,
            FactoryError::NotInitialized => 2,
            FactoryError::Unauthorized => 3,
            FactoryError::RecipientNotAllowlisted => 4,
            FactoryError::DepositExceedsCap => 5,
            FactoryError::DurationTooShort => 6,
            FactoryError::InvalidTimeRange => 7,
            FactoryError::InvalidCliff => 8,
            FactoryError::CreationPaused => 9,
            FactoryError::StreamContractPaused => 10,
            FactoryError::StreamContractError => 11,
            FactoryError::RateBelowMin => 12,
            FactoryError::RateAboveMax => 13,
            FactoryError::InvalidCap => 14,
            FactoryError::InvalidMinDuration => 15,
            FactoryError::InvalidMemo => 16,
        }
    }

    /// The number under which clients see this error.
    pub fn code(self) -> (code: u32)
        ensures
            code == self.spec_code(),
    {
        match self {
            FactoryError::AlreadyInitialized => 1,
            FactoryError::NotInitialized => 2,
            FactoryError::Unauthorized => 3,
            FactoryError::RecipientNotAllowlisted => 4,
            FactoryError::DepositExceedsCap => 5,
            FactoryError::DurationTooShort => 6,
            FactoryError::InvalidTimeRange => 7,
            FactoryError::InvalidCliff => 8,
            FactoryError::CreationPaused => 9,
            FactoryError::StreamContractPaused => 10,
            FactoryError::StreamContractError => 11,
            FactoryError::RateBelowMin => 12,
            FactoryError::RateAboveMax => 13,
            FactoryError::InvalidCap => 14,
            FactoryError::InvalidMinDuration => 15,
            FactoryError::InvalidMemo => 16,
        }
    }
}

/// Why a call did not produce its value.
///
/// `Rejected` ends the call.  The other two ask the host to act; the call is then
/// repeated on the same environment with the answer added.
#[derive(Clone, Debug, PartialEq, Eq)]
pub enum Halt {
    /// The call fails with this error.
    Rejected(FactoryError),
    /// This address must authorize the invocation.  A host that finds no such
    /// authorization aborts the whole invocation.
    AuthRequired(Address),
    /// The stream contract must be called, and its answer supplied.
    CallRequired(StreamCall),
}

} // verus!
