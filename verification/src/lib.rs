//! Treasury policy for factory-created payment streams.
//!
//! A factory contract keeps a small policy (admin, stream contract, deposit cap,
//! minimum duration, recipient allowlist, pause flag) and lets a sender open a
//! stream only when the request satisfies it.  This crate decides; it performs no
//! ledger access, no authorization check and no contract call of its own.  A call
//! works on an [`Env`], the part of the contract's environment it reads and
//! writes, and stops with a [`Halt`] where the host has to act.

pub mod address;
pub mod address_set;
pub mod env;
pub mod error;
pub mod factory;
pub mod laws;
pub mod model;
pub mod outcomes;
pub mod stream;
pub mod token_check;

pub use address::{Address, STRKEY_LENGTH};
pub use address_set::AddressSet;
pub use env::{
    DataKey, Effect, Env, FactoryEvent, InstanceStorage, INSTANCE_BUMP_AMOUNT,
    INSTANCE_LIFETIME_THRESHOLD,
};
pub use error::{FactoryError, Halt};
pub use factory::{FactoryConfig, FluxoraFactory, MAX_MIN_DURATION_SECONDS};
pub use stream::{ContractError, StreamCall, StreamKind, StreamReply};
pub use token_check::{verify_token_behavior, ProbeEvent, ProbeStep, TokenCall};
