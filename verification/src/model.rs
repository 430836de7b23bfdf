//! What each factory call does, as functions of the environment it starts from.

use vstd::prelude::*;

use crate::address::Address;
use crate::env::{DataKey, Effect, EnvView, FactoryEvent, InstanceStorage};
use crate::error::{FactoryError, Halt};
use crate::factory::{FactoryConfig, MAX_MIN_DURATION_SECONDS};
use crate::stream::{ContractError, StreamCall, StreamKind, StreamReply};

verus! {

/// A request for a stream.
pub struct StreamRequest {
    pub sender: Address,
    pub recipient: Address,
    pub deposit_amount: i128,
    pub rate_per_second: i128,
    pub start_time: u64,
    pub cliff_time: u64,
    pub end_time: u64,
    pub withdraw_dust_threshold: i128,
}

impl EnvView {
    /// Stream creation is paused.  An absent flag means that it is not.
    pub open spec fn paused(self) -> bool {
        self.instance.creation_paused == Some(true)
    }

    /// The stored policy is complete.
    pub open spec fn has_policy(self) -> bool {
        &&& self.instance.stream_contract is Some
        &&& self.instance.max_deposit is Some
        &&& self.instance.min_duration is Some
    }

    /// The states a factory can be in: either nothing is stored, or the whole policy
    /// is and its bounds are sensible.
    pub open spec fn valid(self) -> bool {
        if self.instance.admin is Some {
            &&& self.has_policy()
            &&& self.instance.max_deposit->0 > 0
            &&& self.instance.min_duration->0 <= MAX_MIN_DURATION_SECONDS
        } else {
            &&& self.instance == EnvView::fresh().instance
            &&& self.allowlist == Set::<Address>::empty()
        }
    }

    /// The stored policy as one record; an incomplete policy has none.
    pub open spec fn config(self) -> Option<FactoryConfig> {
        if self.instance.admin is Some && self.has_policy() {
            Some(
                FactoryConfig {
                    admin: self.instance.admin->0,
                    stream_contract: self.instance.stream_contract->0,
                    max_deposit: self.instance.max_deposit->0,
                    min_duration: self.instance.min_duration->0,
                },
            )
        } else {
            None
        }
    }
}

/// Why a cap cannot be stored.
pub open spec fn cap_error(max_deposit: i128) -> Option<FactoryError> {
    if max_deposit <= 0 {
        Some(FactoryError::InvalidCap)
    } else {
        None
    }
}

/// Why a minimum duration cannot be stored.
pub open spec fn min_duration_error(min_duration: u64) -> Option<FactoryError> {
    if min_duration > MAX_MIN_DURATION_SECONDS {
        Some(FactoryError::InvalidMinDuration)
    } else {
        None
    }
}

/// The current admin, once it has authorized the invocation.
pub open spec fn authorized_admin(pre: EnvView) -> Result<Address, Halt> {
    match pre.instance.admin {
        None => Err(Halt::Rejected(FactoryError::NotInitialized)),
        Some(admin) => if pre.authorized.contains(admin) {
            Ok(admin)
        } else {
            Err(Halt::AuthRequired(admin))
        },
    }
}

/// What a call reserved to the admin does: it stops where the admin or its
/// authorization is missing, fails with `error`, or leaves `granted` behind.  A call
/// that does not succeed changes nothing.
pub open spec fn admin_call(pre: EnvView, error: Option<FactoryError>, granted: EnvView) -> (
    EnvView,
    Result<(), Halt>,
) {
    match (authorized_admin(pre), error) {
        (Err(halt), _) => (pre, Err(halt)),
        (Ok(_), Some(e)) => (pre, Err(Halt::Rejected(e))),
        (Ok(_), None) => (granted, Ok(())),
    }
}

/// The environment that a successful `init` leaves behind.
pub open spec fn initialized(
    pre: EnvView,
    admin: Address,
    stream_contract: Address,
    max_deposit: i128,
    min_duration: u64,
) -> EnvView {
    EnvView {
        instance: InstanceStorage {
            admin: Some(admin),
            stream_contract: Some(stream_contract),
            max_deposit: Some(max_deposit),
            min_duration: Some(min_duration),
            ..pre.instance
        },
        ..pre
    }.perform(Effect::Store(DataKey::Admin)).perform(Effect::Store(DataKey::StreamContract)).perform(
        Effect::Store(DataKey::MaxDepositCap),
    ).perform(Effect::Store(DataKey::MinDuration)).perform(EnvView::ttl_extension())
}

/// What `init` does.
pub open spec fn init_call(
    pre: EnvView,
    admin: Address,
    stream_contract: Address,
    max_deposit: i128,
    min_duration: u64,
) -> (EnvView, Result<(), Halt>) {
    if !pre.authorized.contains(admin) {
        (pre, Err(Halt::AuthRequired(admin)))
    } else if pre.instance.admin is Some {
        (pre, Err(Halt::Rejected(FactoryError::AlreadyInitialized)))
    } else if cap_error(max_deposit) is Some {
        (pre, Err(Halt::Rejected(cap_error(max_deposit)->0)))
    } else if min_duration_error(min_duration) is Some {
        (pre, Err(Halt::Rejected(min_duration_error(min_duration)->0)))
    } else {
        (initialized(pre, admin, stream_contract, max_deposit, min_duration), Ok(()))
    }
}

/// What `set_admin` does.
pub open spec fn set_admin_call(pre: EnvView, new_admin: Address) -> (EnvView, Result<(), Halt>) {
    let instance = InstanceStorage { admin: Some(new_admin), ..pre.instance };
    admin_call(pre, None, pre.update_instance(instance, DataKey::Admin))
}

/// What `set_stream_contract` does.
pub open spec fn set_stream_contract_call(pre: EnvView, new_stream_contract: Address) -> (
    EnvView,
    Result<(), Halt>,
) {
    let instance = InstanceStorage {
        stream_contract: Some(new_stream_contract),
        ..pre.instance
    };
    admin_call(pre, None, pre.update_instance(instance, DataKey::StreamContract))
}

/// What `set_cap` does.
pub open spec fn set_cap_call(pre: EnvView, max_deposit: i128) -> (EnvView, Result<(), Halt>) {
    let instance = InstanceStorage { max_deposit: Some(max_deposit), ..pre.instance };
    admin_call(
        pre,
        cap_error(max_deposit),
        pre.update_instance(instance, DataKey::MaxDepositCap),
    )
}

/// What `set_min_duration` does.
pub open spec fn set_min_duration_call(pre: EnvView, min_duration: u64) -> (
    EnvView,
    Result<(), Halt>,
) {
    let instance = InstanceStorage { min_duration: Some(min_duration), ..pre.instance };
    admin_call(
        pre,
        min_duration_error(min_duration),
        pre.update_instance(instance, DataKey::MinDuration),
    )
}

/// What `set_factory_paused` does.
pub open spec fn set_factory_paused_call(pre: EnvView, paused: bool) -> (
    EnvView,
    Result<(), Halt>,
) {
    let instance = InstanceStorage { creation_paused: Some(paused), ..pre.instance };
    admin_call(
        pre,
        None,
        pre.update_instance(instance, DataKey::CreationPaused).perform(
            Effect::Publish(FactoryEvent { paused }),
        ),
    )
}

/// What `set_allowlist` does.
pub open spec fn set_allowlist_call(pre: EnvView, recipient: Address, allowed: bool) -> (
    EnvView,
    Result<(), Halt>,
) {
    let allowlist = if allowed {
        pre.allowlist.insert(recipient)
    } else {
        pre.allowlist.remove(recipient)
    };
    admin_call(
        pre,
        None,
        EnvView { allowlist, ..pre }.perform(Effect::Store(DataKey::Allowlist(recipient))).perform(
            EnvView::ttl_extension(),
        ),
    )
}

/// The first policy rule that `request` breaks, in the order in which they are checked.
pub open spec fn violation(pre: EnvView, request: StreamRequest) -> Option<FactoryError> {
    if pre.paused() {
        Some(FactoryError::CreationPaused)
    } else if !pre.has_policy() {
        Some(FactoryError::NotInitialized)
    } else if !pre.allowlist.contains(request.recipient) {
        Some(FactoryError::RecipientNotAllowlisted)
    } else if request.deposit_amount > pre.instance.max_deposit->0 {
        Some(FactoryError::DepositExceedsCap)
    } else if request.start_time >= request.end_time {
        Some(FactoryError::InvalidTimeRange)
    } else if !(request.start_time <= request.cliff_time <= request.end_time) {
        Some(FactoryError::InvalidCliff)
    } else if request.end_time - request.start_time < pre.instance.min_duration->0 {
        Some(FactoryError::DurationTooShort)
    } else {
        None
    }
}

/// The call on the stream contract that carries out `request`.
pub open spec fn stream_call(pre: EnvView, request: StreamRequest) -> StreamCall {
    StreamCall {
        contract: pre.instance.stream_contract->0,
        sender: request.sender,
        recipient: request.recipient,
        deposit_amount: request.deposit_amount,
        rate_per_second: request.rate_per_second,
        start_time: request.start_time,
        cliff_time: request.cliff_time,
        end_time: request.end_time,
        withdraw_dust_threshold: request.withdraw_dust_threshold,
        memo: None,
        kind: StreamKind::Linear,
    }
}

/// What the factory makes of the stream contract's answer.
pub open spec fn reply_result(reply: StreamReply) -> Result<u64, FactoryError> {
    match reply {
        StreamReply::Created(stream_id) => Ok(stream_id),
        StreamReply::Refused(ContractError::ContractPaused) => Err(
            FactoryError::StreamContractPaused,
        ),
        _ => Err(FactoryError::StreamContractError),
    }
}

/// What `create_stream` returns; it changes nothing.
pub open spec fn create_stream_call(
    pre: EnvView,
    request: StreamRequest,
    reply: Option<StreamReply>,
) -> Result<u64, Halt> {
    if violation(pre, request) is Some {
        Err(Halt::Rejected(violation(pre, request)->0))
    } else if !pre.authorized.contains(request.sender) {
        Err(Halt::AuthRequired(request.sender))
    } else {
        match reply {
            None => Err(Halt::CallRequired(stream_call(pre, request))),
            Some(answer) => match reply_result(answer) {
                Ok(stream_id) => Ok(stream_id),
                Err(e) => Err(Halt::Rejected(e)),
            },
        }
    }
}

} // verus!
