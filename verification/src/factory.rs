//! The factory contract's entry points.

use vstd::prelude::*;

use crate::address::Address;
use crate::env::{DataKey, Effect, Env, EnvView, FactoryEvent, InstanceStorage};
use crate::error::{FactoryError, Halt};
use crate::stream::{ContractError, StreamCall, StreamKind, StreamReply};

verus! {

/// The longest minimum duration that can be stored: a hundred years of 365 days.
pub const MAX_MIN_DURATION_SECONDS: u64 = 3_153_600_000;

/// Read-only snapshot of the factory policy stored in instance storage.
#[derive(Clone, Copy, Debug, PartialEq, Eq)]
pub struct FactoryConfig {
    pub admin: Address,
    pub stream_contract: Address,
    pub max_deposit: i128,
    pub min_duration: u64,
}

/// Load the current factory admin and require its authorization.
///
/// This is the single authorization chokepoint for the admin-only calls.  A factory
/// without an admin reports that before any authorization is asked for.
pub fn require_admin(env: &Env) -> (admin: Result<Address, Halt>)
    ensures
        admin == crate::model::authorized_admin(env@),
{
    match env.instance.admin {
        None => Err(Halt::Rejected(FactoryError::NotInitialized)),
        Some(admin) => {
            if env.authorized.contains(&admin) {
                Ok(admin)
            } else {
                Err(Halt::AuthRequired(admin))
            }
        },
    }
}

/// Accepts a cap exactly when it is positive.
fn check_cap(max_deposit: i128) -> (checked: Result<(), FactoryError>)
    ensures
        checked == match crate::model::cap_error(max_deposit) {
            Some(e) => Err::<(), FactoryError>(e),
            None => Ok(()),
        },
{
    if max_deposit <= 0 {
        Err(FactoryError::InvalidCap)
    } else {
        Ok(())
    }
}

/// Accepts a minimum duration exactly when it is at most [`MAX_MIN_DURATION_SECONDS`].
fn check_min_duration(min_duration: u64) -> (checked: Result<(), FactoryError>)
    ensures
        checked == match crate::model::min_duration_error(min_duration) {
            Some(e) => Err::<(), FactoryError>(e),
            None => Ok(()),
        },
{
    if min_duration > MAX_MIN_DURATION_SECONDS {
        Err(FactoryError::InvalidMinDuration)
    } else {
        Ok(())
    }
}

pub struct FluxoraFactory;

impl FluxoraFactory {
    /// Initialize the factory with admin, stream contract, and policies.
    ///
    /// The declared admin must authorize the call; nothing else is looked at before.
    /// Creation starts out unpaused: no flag is written, and an absent flag reads as
    /// not paused.
    pub fn init(
        env: &mut Env,
        admin: Address,
        stream_contract: Address,
        max_deposit: i128,
        min_duration: u64,
    ) -> (result: Result<(), Halt>)
        ensures
            (final(env)@, result) == crate::model::init_call(
                old(env)@,
                admin,
                stream_contract,
                max_deposit,
                min_duration,
            ),
    {
        if !env.authorized.contains(&admin) {
            return Err(Halt::AuthRequired(admin));
        }
        if env.instance.admin.is_some() {
            return Err(Halt::Rejected(FactoryError::AlreadyInitialized));
        }
        if let Err(e) = check_cap(max_deposit) {
            return Err(Halt::Rejected(e));
        }
        if let Err(e) = check_min_duration(min_duration) {
            return Err(Halt::Rejected(e));
        }
        env.instance = InstanceStorage {
            admin: Some(admin),
            stream_contract: Some(stream_contract),
            max_deposit: Some(max_deposit),
            min_duration: Some(min_duration),
            creation_paused: env.instance.creation_paused,
        };
        env.effects.push(Effect::Store(DataKey::Admin));
        env.effects.push(Effect::Store(DataKey::StreamContract));
        env.effects.push(Effect::Store(DataKey::MaxDepositCap));
        env.effects.push(Effect::Store(DataKey::MinDuration));
        env.extend_instance_ttl();
        Ok(())
    }

    /// Admin updates the factory admin.
    pub fn set_admin(env: &mut Env, new_admin: Address) -> (result: Result<(), Halt>)
        ensures
            (final(env)@, result) == crate::model::set_admin_call(old(env)@, new_admin),
    {
        let _ = require_admin(env)?;
        let mut instance = env.instance;
        instance.admin = Some(new_admin);
        env.update_instance(instance, DataKey::Admin);
        Ok(())
    }

    /// Admin updates the stream contract address.
    pub fn set_stream_contract(env: &mut Env, new_stream_contract: Address) -> (result: Result<
        (),
        Halt,
    >)
        ensures
            (final(env)@, result) == crate::model::set_stream_contract_call(
                old(env)@,
                new_stream_contract,
            ),
    {
        let _ = require_admin(env)?;
        let mut instance = env.instance;
        instance.stream_contract = Some(new_stream_contract);
        env.update_instance(instance, DataKey::StreamContract);
        Ok(())
    }

    /// Admin adds or removes a recipient from the allowlist.
    pub fn set_allowlist(env: &mut Env, recipient: Address, allowed: bool) -> (result: Result<
        (),
        Halt,
    >)
        ensures
            (final(env)@, result) == crate::model::set_allowlist_call(
                old(env)@,
                recipient,
                allowed,
            ),
    {
        let _ = require_admin(env)?;
        if allowed {
            env.allowlist.insert(recipient);
        } else {
            env.allowlist.remove(&recipient);
        }
        env.effects.push(Effect::Store(DataKey::Allowlist(recipient)));
        env.extend_instance_ttl();
        Ok(())
    }

    /// Admin updates the max deposit cap, which must be positive.
    pub fn set_cap(env: &mut Env, max_deposit: i128) -> (result: Result<(), Halt>)
        ensures
            (final(env)@, result) == crate::model::set_cap_call(old(env)@, max_deposit),
    {
        let _ = require_admin(env)?;
        if let Err(e) = check_cap(max_deposit) {
            return Err(Halt::Rejected(e));
        }
        let mut instance = env.instance;
        instance.max_deposit = Some(max_deposit);
        env.update_instance(instance, DataKey::MaxDepositCap);
        Ok(())
    }

    /// Admin updates the minimum stream duration, up to [`MAX_MIN_DURATION_SECONDS`].
    pub fn set_min_duration(env: &mut Env, min_duration: u64) -> (result: Result<(), Halt>)
        ensures
            (final(env)@, result) == crate::model::set_min_duration_call(old(env)@, min_duration),
    {
        let _ = require_admin(env)?;
        if let Err(e) = check_min_duration(min_duration) {
            return Err(Halt::Rejected(e));
        }
        let mut instance = env.instance;
        instance.min_duration = Some(min_duration);
        env.update_instance(instance, DataKey::MinDuration);
        Ok(())
    }

    /// Toggle the factory-level stream creation pause.
    ///
    /// While `paused` is `true`, `create_stream` returns
    /// [`FactoryError::CreationPaused`] before it looks at any other policy, so the
    /// admin can halt new streams without dismantling the allowlist or the limits.
    ///
    /// # Events
    /// Publishes one event with a `factory_paused` or `factory_resumed` topic, depending
    /// on the new value of `paused`, and that value as its data.
    pub fn set_factory_paused(env: &mut Env, paused: bool) -> (result: Result<(), Halt>)
        ensures
            (final(env)@, result) == crate::model::set_factory_paused_call(old(env)@, paused),
    {
        let _ = require_admin(env)?;
        let mut instance = env.instance;
        instance.creation_paused = Some(paused);
        env.update_instance(instance, DataKey::CreationPaused);
        env.effects.push(Effect::Publish(FactoryEvent { paused }));
        Ok(())
    }

    /// Return whether factory stream creation is currently paused.
    ///
    /// Anyone may ask.
    pub fn is_factory_paused(env: &Env) -> (paused: bool)
        ensures
            paused == env@.paused(),
            paused <==> env.instance.creation_paused == Some(true),
    {
        env.instance.creation_paused.unwrap_or(false)
    }

    /// Return the current factory policy configuration.
    pub fn get_factory_config(env: &Env) -> (config: Result<FactoryConfig, FactoryError>)
        ensures
            config == match env@.config() {
                Some(config) => Ok::<FactoryConfig, FactoryError>(config),
                None => Err(FactoryError::NotInitialized),
            },
            config matches Ok(c) ==> {
                &&& env.instance.admin == Some(c.admin)
                &&& env.instance.stream_contract == Some(c.stream_contract)
                &&& env.instance.max_deposit == Some(c.max_deposit)
                &&& env.instance.min_duration == Some(c.min_duration)
            },
            config is Err <==> {
                ||| env.instance.admin is None
                ||| env.instance.stream_contract is None
                ||| env.instance.max_deposit is None
                ||| env.instance.min_duration is None
            },
    {
        let admin = env.instance.admin.ok_or(FactoryError::NotInitialized)?;
        let stream_contract = env.instance.stream_contract.ok_or(FactoryError::NotInitialized)?;
        let max_deposit: i128 = env.instance.max_deposit.ok_or(FactoryError::NotInitialized)?;
        let min_duration: u64 = env.instance.min_duration.ok_or(FactoryError::NotInitialized)?;
        Ok(FactoryConfig { admin, stream_contract, max_deposit, min_duration })
    }

    /// Return whether `recipient` is currently allowlisted for factory-created streams.
    pub fn is_allowlisted(env: &Env, recipient: Address) -> (allowed: bool)
        ensures
            allowed == env@.allowlist.contains(recipient),
    {
        env.allowlist.contains(&recipient)
    }

    /// Creates a new stream via the stream contract after enforcing treasury policies.
    ///
    /// `reply` is the stream contract's answer once it has been called, and `None`
    /// before.
    ///
    /// # Guard order (checked strictly in sequence)
    /// 1. **CreationPaused** — rejects immediately, before any policy read, to
    ///    avoid leaking allowlist or cap state during an incident.
    /// 2. Initialization check
    /// 3. Allowlist check
    /// 4. Deposit cap check
    /// 5. Time-range invariants
    /// 6. Minimum-duration check
    /// 7. Sender authorization
    /// 8. Cross-contract stream creation
    pub fn create_stream(
        env: &Env,
        sender: Address,
        recipient: Address,
        deposit_amount: i128,
        rate_per_second: i128,
        start_time: u64,
        cliff_time: u64,
        end_time: u64,
        withdraw_dust_threshold: i128,
        reply: Option<StreamReply>,
    ) -> (result: Result<u64, Halt>)
        ensures
            result == crate::model::create_stream_call(
                env@,
                (crate::model::StreamRequest {
                    sender,
                    recipient,
                    deposit_amount,
                    rate_per_second,
                    start_time,
                    cliff_time,
                    end_time,
                    withdraw_dust_threshold,
                }),
                reply,
            ),
    {
        if FluxoraFactory::is_factory_paused(env) {
            return Err(Halt::Rejected(FactoryError::CreationPaused));
        }
        let (stream_contract, max_deposit, min_duration) = match (
            env.instance.stream_contract,
            env.instance.max_deposit,
            env.instance.min_duration,
        ) {
            (Some(contract), Some(cap), Some(shortest)) => (contract, cap, shortest),
            _ => return Err(Halt::Rejected(FactoryError::NotInitialized)),
        };
        if !FluxoraFactory::is_allowlisted(env, recipient) {
            return Err(Halt::Rejected(FactoryError::RecipientNotAllowlisted));
        }
        if deposit_amount > max_deposit {
            return Err(Halt::Rejected(FactoryError::DepositExceedsCap));
        }
        // The stream contract demands the same of a schedule; checked here, a bad one
        // is reported as an error of the factory.
        if start_time >= end_time {
            return Err(Halt::Rejected(FactoryError::InvalidTimeRange));
        }
        if cliff_time < start_time || cliff_time > end_time {
            return Err(Halt::Rejected(FactoryError::InvalidCliff));
        }
        let duration: u64 = end_time - start_time;
        if duration < min_duration {
            return Err(Halt::Rejected(FactoryError::DurationTooShort));
        }
        // The stream contract is called in the sender's name.
        if !env.authorized.contains(&sender) {
            return Err(Halt::AuthRequired(sender));
        }
        match reply {
            None => Err(
                Halt::CallRequired(
                    StreamCall {
                        contract: stream_contract,
                        sender,
                        recipient,
                        deposit_amount,
                        rate_per_second,
                        start_time,
                        cliff_time,
                        end_time,
                        withdraw_dust_threshold,
                        memo: None,
                        kind: StreamKind::Linear,
                    },
                ),
            ),
            Some(StreamReply::Created(stream_id)) => Ok(stream_id),
            Some(StreamReply::Refused(ContractError::ContractPaused)) => Err(
                Halt::Rejected(FactoryError::StreamContractPaused),
            ),
            Some(_) => Err(Halt::Rejected(FactoryError::StreamContractError)),
        }
    }
}

} // verus!
