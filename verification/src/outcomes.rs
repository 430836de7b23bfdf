//! What each call comes to, in terms of its arguments and the stored entries alone.
//!
//! The statements name entries, bounds and answers directly, so that each can be read
//! without knowing how the calls are described in [`crate::model`].  A law about one
//! call speaks of what the call itself returned and left behind; a law that relates
//! several calls chains their descriptions.

use vstd::prelude::*;

use crate::address::Address;
use crate::env::{DataKey, Effect, Env, EnvView, FactoryEvent, InstanceStorage};
use crate::error::{FactoryError, Halt};
use crate::factory::{require_admin, FactoryConfig, FluxoraFactory};
use crate::model::StreamRequest;
use crate::stream::{ContractError, StreamCall, StreamKind, StreamReply};

verus! {

/// The value of an environment shows each of its parts as it is.
pub proof fn law_view_shows_every_part(env: Env)
    ensures
        env@.instance == env.instance,
        env@.allowlist == env.allowlist@,
        env@.authorized == env.authorized@,
        env@.effects == env.effects@,
{
}

/// A new environment holds no entry, no allowlisted recipient, no authorization and
/// nothing to carry out.
pub proof fn law_fresh_holds_nothing(env: Env, address: Address)
    requires
        call_ensures(Env::new, (), env),
    ensures
        env.instance.admin is None,
        env.instance.stream_contract is None,
        env.instance.max_deposit is None,
        env.instance.min_duration is None,
        env.instance.creation_paused is None,
        !env.allowlist@.contains(address),
        !env.authorized@.contains(address),
        env.effects@.len() == 0,
{
    assert(env@.effects.len() == 0);
    assert(!env@.allowlist.contains(address));
    assert(!env@.authorized.contains(address));
}

/// An authorization adds that one address to those that have authorized the invocation,
/// and changes nothing else.
pub proof fn law_authorize_adds_one_address(env: &mut Env, address: Address, other: Address)
    requires
        call_ensures(Env::authorize, (env, address), ()),
    ensures
        final(env)@.authorized.contains(other) <==> (other == address
            || old(env)@.authorized.contains(other)),
        final(env)@.instance == old(env)@.instance,
        final(env)@.allowlist == old(env)@.allowlist,
        final(env)@.effects == old(env)@.effects,
{
}

// Reading back.

/// Creation is paused exactly when the stored flag is `true`; an absent flag means no.
pub proof fn law_paused_is_the_stored_flag(env: Env, paused: bool)
    requires
        call_ensures(FluxoraFactory::is_factory_paused, (&env,), paused),
    ensures
        env.instance.creation_paused == Some(true) ==> paused,
        env.instance.creation_paused == Some(false) ==> !paused,
        env.instance.creation_paused is None ==> !paused,
{
}

/// A recipient is reported as allowlisted exactly when its entry is stored.
pub proof fn law_allowlisted_is_the_stored_entry(env: Env, recipient: Address, allowed: bool)
    requires
        call_ensures(FluxoraFactory::is_allowlisted, (&env, recipient), allowed),
    ensures
        allowed <==> env.allowlist@.contains(recipient),
{
}

/// A configuration is read exactly when all four entries are stored, and each of its
/// fields is the stored entry; otherwise the answer is `NotInitialized`.
pub proof fn law_config_is_the_stored_entries(
    env: Env,
    answer: Result<FactoryConfig, FactoryError>,
    config: FactoryConfig,
)
    requires
        call_ensures(FluxoraFactory::get_factory_config, (&env,), answer),
    ensures
        answer == Ok::<FactoryConfig, FactoryError>(config) <==> {
            &&& env.instance.admin == Some(config.admin)
            &&& env.instance.stream_contract == Some(config.stream_contract)
            &&& env.instance.max_deposit == Some(config.max_deposit)
            &&& env.instance.min_duration == Some(config.min_duration)
        },
        answer == Err::<FactoryConfig, FactoryError>(FactoryError::NotInitialized) <==> {
            ||| env.instance.admin is None
            ||| env.instance.stream_contract is None
            ||| env.instance.max_deposit is None
            ||| env.instance.min_duration is None
        },
{
}

/// What is read depends on the stored entries only: whatever is authorized,
/// allowlisted or still to be carried out, equal entries give the same configuration
/// and the same pause state.
pub proof fn law_reading_depends_on_entries_only(
    one: Env,
    other: Env,
    configs: (Result<FactoryConfig, FactoryError>, Result<FactoryConfig, FactoryError>),
    paused: (bool, bool),
)
    requires
        one.instance == other.instance,
        call_ensures(FluxoraFactory::get_factory_config, (&one,), configs.0),
        call_ensures(FluxoraFactory::get_factory_config, (&other,), configs.1),
        call_ensures(FluxoraFactory::is_factory_paused, (&one,), paused.0),
        call_ensures(FluxoraFactory::is_factory_paused, (&other,), paused.1),
    ensures
        configs.0 == configs.1,
        paused.0 == paused.1,
{
}

/// The policy as one record is made of the stored entries, and of nothing else:
/// environments with equal entries have the same record, each field of which is an
/// entry.  The same holds of the pause state.
pub proof fn law_policy_record_is_made_of_entries(
    one: EnvView,
    other: EnvView,
    config: FactoryConfig,
)
    ensures
        one.instance == other.instance ==> one.config() == other.config() && one.paused()
            == other.paused(),
        one.config() == Some(config) <==> {
            &&& one.instance.admin == Some(config.admin)
            &&& one.instance.stream_contract == Some(config.stream_contract)
            &&& one.instance.max_deposit == Some(config.max_deposit)
            &&& one.instance.min_duration == Some(config.min_duration)
        },
        one.paused() <==> one.instance.creation_paused == Some(true),
{
}

// Who may change the policy.

/// The admin check passes with the stored admin once that address has authorized the
/// invocation, asks for its authorization before, and has nobody to ask where no admin
/// is stored.
pub proof fn law_admin_check(env: Env, checked: Result<Address, Halt>, admin: Address)
    requires
        call_ensures(require_admin, (&env,), checked),
    ensures
        checked == Ok::<Address, Halt>(admin) <==> {
            env.instance.admin == Some(admin) && env.authorized@.contains(admin)
        },
        checked == Err::<Address, Halt>(Halt::AuthRequired(admin)) <==> {
            env.instance.admin == Some(admin) && !env.authorized@.contains(admin)
        },
        checked == Err::<Address, Halt>(Halt::Rejected(FactoryError::NotInitialized)) <==> {
            env.instance.admin is None
        },
{
}

/// Until the stored admin authorizes it, every setter asks for that and leaves all as it
/// was, whatever its arguments and whoever else has authorized the invocation.
pub proof fn law_setters_wait_for_the_admin(
    env: &mut Env,
    admin: Address,
    address: Address,
    flag: bool,
    cap: i128,
    seconds: u64,
    result: Result<(), Halt>,
)
    requires
        call_ensures(FluxoraFactory::set_admin, (env, address), result) || call_ensures(
            FluxoraFactory::set_stream_contract,
            (env, address),
            result,
        ) || call_ensures(FluxoraFactory::set_allowlist, (env, address, flag), result)
            || call_ensures(FluxoraFactory::set_cap, (env, cap), result) || call_ensures(
            FluxoraFactory::set_min_duration,
            (env, seconds),
            result,
        ) || call_ensures(FluxoraFactory::set_factory_paused, (env, flag), result),
        old(env)@.instance.admin == Some(admin),
        !old(env)@.authorized.contains(admin),
    ensures
        result == Err::<(), Halt>(Halt::AuthRequired(admin)),
        final(env)@ == old(env)@,
{
}

/// Without a stored admin every setter answers `NotInitialized` and leaves all as it
/// was, whatever its arguments and whoever has authorized the invocation.
pub proof fn law_setters_need_an_admin(
    env: &mut Env,
    address: Address,
    flag: bool,
    cap: i128,
    seconds: u64,
    result: Result<(), Halt>,
)
    requires
        call_ensures(FluxoraFactory::set_admin, (env, address), result) || call_ensures(
            FluxoraFactory::set_stream_contract,
            (env, address),
            result,
        ) || call_ensures(FluxoraFactory::set_allowlist, (env, address, flag), result)
            || call_ensures(FluxoraFactory::set_cap, (env, cap), result) || call_ensures(
            FluxoraFactory::set_min_duration,
            (env, seconds),
            result,
        ) || call_ensures(FluxoraFactory::set_factory_paused, (env, flag), result),
        old(env)@.instance.admin is None,
    ensures
        result == Err::<(), Halt>(Halt::Rejected(FactoryError::NotInitialized)),
        final(env)@ == old(env)@,
{
}

/// Whether a setter succeeds never depends on the rest of the stored policy, on the
/// allowlist or on what is still to be carried out: two factories with the same admin,
/// which has authorized both or neither, answer alike.
pub proof fn law_setter_answers_ignore_the_policy(
    one: EnvView,
    other: EnvView,
    admin: Address,
    address: Address,
    flag: bool,
    cap: i128,
    seconds: u64,
)
    requires
        one.instance.admin == Some(admin),
        other.instance.admin == Some(admin),
        one.authorized.contains(admin) == other.authorized.contains(admin),
    ensures
        crate::model::set_admin_call(one, address).1 == crate::model::set_admin_call(
            other,
            address,
        ).1,
        crate::model::set_stream_contract_call(one, address).1
            == crate::model::set_stream_contract_call(other, address).1,
        crate::model::set_allowlist_call(one, address, flag).1 == crate::model::set_allowlist_call(
            other,
            address,
            flag,
        ).1,
        crate::model::set_cap_call(one, cap).1 == crate::model::set_cap_call(other, cap).1,
        crate::model::set_min_duration_call(one, seconds).1 == crate::model::set_min_duration_call(
            other,
            seconds,
        ).1,
        crate::model::set_factory_paused_call(one, flag).1
            == crate::model::set_factory_paused_call(other, flag).1,
{
}

// What the admin's calls do.

/// The admin can hand its role to any address, which is the stored admin from then on.
pub proof fn law_admin_sets_admin(
    env: &mut Env,
    admin: Address,
    new_admin: Address,
    result: Result<(), Halt>,
)
    requires
        call_ensures(FluxoraFactory::set_admin, (env, new_admin), result),
        old(env)@.instance.admin == Some(admin),
        old(env)@.authorized.contains(admin),
    ensures
        ({
            let pre = old(env)@;
            let post = final(env)@;
            &&& result == Ok::<(), Halt>(())
            &&& post.instance.admin == Some(new_admin)
            &&& post.instance.stream_contract == pre.instance.stream_contract
            &&& post.instance.max_deposit == pre.instance.max_deposit
            &&& post.instance.min_duration == pre.instance.min_duration
            &&& post.instance.creation_paused == pre.instance.creation_paused
            &&& post.allowlist == pre.allowlist
            &&& post.authorized == pre.authorized
            &&& post.effects == pre.effects + seq![
                Effect::Store(DataKey::Admin),
                Effect::ExtendInstanceTtl { threshold: 17_280, extend_to: 120_960 },
            ]
        }),
{
}

/// The admin can point the factory at any stream contract.
pub proof fn law_admin_sets_stream_contract(
    env: &mut Env,
    admin: Address,
    contract: Address,
    result: Result<(), Halt>,
)
    requires
        call_ensures(FluxoraFactory::set_stream_contract, (env, contract), result),
        old(env)@.instance.admin == Some(admin),
        old(env)@.authorized.contains(admin),
    ensures
        ({
            let pre = old(env)@;
            let post = final(env)@;
            &&& result == Ok::<(), Halt>(())
            &&& post.instance.stream_contract == Some(contract)
            &&& post.instance.admin == pre.instance.admin
            &&& post.instance.max_deposit == pre.instance.max_deposit
            &&& post.instance.min_duration == pre.instance.min_duration
            &&& post.instance.creation_paused == pre.instance.creation_paused
            &&& post.allowlist == pre.allowlist
            &&& post.authorized == pre.authorized
            &&& post.effects == pre.effects + seq![
                Effect::Store(DataKey::StreamContract),
                Effect::ExtendInstanceTtl { threshold: 17_280, extend_to: 120_960 },
            ]
        }),
{
}

/// The admin can add and remove any address: afterwards that address is allowlisted
/// exactly when it was added, and every other address as before.
pub proof fn law_admin_sets_allowlist(
    env: &mut Env,
    admin: Address,
    recipient: Address,
    allowed: bool,
    other: Address,
    result: Result<(), Halt>,
)
    requires
        call_ensures(FluxoraFactory::set_allowlist, (env, recipient, allowed), result),
        old(env)@.instance.admin == Some(admin),
        old(env)@.authorized.contains(admin),
    ensures
        ({
            let pre = old(env)@;
            let post = final(env)@;
            &&& result == Ok::<(), Halt>(())
            &&& post.allowlist.contains(recipient) <==> allowed
            &&& other != recipient ==> (post.allowlist.contains(other)
                <==> pre.allowlist.contains(other))
            &&& post.instance == pre.instance
            &&& post.authorized == pre.authorized
            &&& post.effects == pre.effects + seq![
                Effect::Store(DataKey::Allowlist(recipient)),
                Effect::ExtendInstanceTtl { threshold: 17_280, extend_to: 120_960 },
            ]
        }),
{
}

/// The admin can store exactly the positive caps; any other is answered `InvalidCap`
/// and changes nothing.
pub proof fn law_admin_sets_cap(
    env: &mut Env,
    admin: Address,
    cap: i128,
    result: Result<(), Halt>,
)
    requires
        call_ensures(FluxoraFactory::set_cap, (env, cap), result),
        old(env)@.instance.admin == Some(admin),
        old(env)@.authorized.contains(admin),
    ensures
        ({
            let pre = old(env)@;
            let post = final(env)@;
            &&& cap > 0 ==> {
                &&& result == Ok::<(), Halt>(())
                &&& post.instance.max_deposit == Some(cap)
                &&& post.instance.admin == pre.instance.admin
                &&& post.instance.stream_contract == pre.instance.stream_contract
                &&& post.instance.min_duration == pre.instance.min_duration
                &&& post.instance.creation_paused == pre.instance.creation_paused
                &&& post.allowlist == pre.allowlist
                &&& post.authorized == pre.authorized
                &&& post.effects == pre.effects + seq![
                    Effect::Store(DataKey::MaxDepositCap),
                    Effect::ExtendInstanceTtl { threshold: 17_280, extend_to: 120_960 },
                ]
            }
            &&& cap <= 0 ==> {
                &&& result == Err::<(), Halt>(Halt::Rejected(FactoryError::InvalidCap))
                &&& post == pre
            }
        }),
{
}

/// The admin can store exactly the minimum durations of up to a hundred years of 365
/// days; a longer one is answered `InvalidMinDuration` and changes nothing.
pub proof fn law_admin_sets_min_duration(
    env: &mut Env,
    admin: Address,
    seconds: u64,
    result: Result<(), Halt>,
)
    requires
        call_ensures(FluxoraFactory::set_min_duration, (env, seconds), result),
        old(env)@.instance.admin == Some(admin),
        old(env)@.authorized.contains(admin),
    ensures
        ({
            let pre = old(env)@;
            let post = final(env)@;
            &&& seconds <= 100 * 365 * 86_400 ==> {
                &&& result == Ok::<(), Halt>(())
                &&& post.instance.min_duration == Some(seconds)
                &&& post.instance.admin == pre.instance.admin
                &&& post.instance.stream_contract == pre.instance.stream_contract
                &&& post.instance.max_deposit == pre.instance.max_deposit
                &&& post.instance.creation_paused == pre.instance.creation_paused
                &&& post.allowlist == pre.allowlist
                &&& post.authorized == pre.authorized
                &&& post.effects == pre.effects + seq![
                    Effect::Store(DataKey::MinDuration),
                    Effect::ExtendInstanceTtl { threshold: 17_280, extend_to: 120_960 },
                ]
            }
            &&& seconds > 100 * 365 * 86_400 ==> {
                &&& result == Err::<(), Halt>(Halt::Rejected(FactoryError::InvalidMinDuration))
                &&& post == pre
            }
        }),
{
}

/// The admin can pause and resume at any time, whatever is stored: afterwards the flag
/// is the one given, and one event carries it.
pub proof fn law_admin_sets_factory_paused(
    env: &mut Env,
    admin: Address,
    paused: bool,
    result: Result<(), Halt>,
)
    requires
        call_ensures(FluxoraFactory::set_factory_paused, (env, paused), result),
        old(env)@.instance.admin == Some(admin),
        old(env)@.authorized.contains(admin),
    ensures
        ({
            let pre = old(env)@;
            let post = final(env)@;
            &&& result == Ok::<(), Halt>(())
            &&& post.instance.creation_paused == Some(paused)
            &&& post.instance.admin == pre.instance.admin
            &&& post.instance.stream_contract == pre.instance.stream_contract
            &&& post.instance.max_deposit == pre.instance.max_deposit
            &&& post.instance.min_duration == pre.instance.min_duration
            &&& post.allowlist == pre.allowlist
            &&& post.authorized == pre.authorized
            &&& post.effects == pre.effects + seq![
                Effect::Store(DataKey::CreationPaused),
                Effect::ExtendInstanceTtl { threshold: 17_280, extend_to: 120_960 },
                Effect::Publish(FactoryEvent { paused }),
            ]
        }),
{
}

// How a factory starts.

/// `init` asks for the declared admin's authorization before it looks at anything else.
pub proof fn law_init_waits_for_the_declared_admin(
    env: &mut Env,
    admin: Address,
    contract: Address,
    cap: i128,
    seconds: u64,
    result: Result<(), Halt>,
)
    requires
        call_ensures(FluxoraFactory::init, (env, admin, contract, cap, seconds), result),
        !old(env)@.authorized.contains(admin),
    ensures
        result == Err::<(), Halt>(Halt::AuthRequired(admin)),
        final(env)@ == old(env)@,
{
}

/// A factory with a stored admin, whoever that is, cannot be initialized.
pub proof fn law_init_is_refused_on_a_stored_admin(
    env: &mut Env,
    stored: Address,
    admin: Address,
    contract: Address,
    cap: i128,
    seconds: u64,
    result: Result<(), Halt>,
)
    requires
        call_ensures(FluxoraFactory::init, (env, admin, contract, cap, seconds), result),
        old(env)@.authorized.contains(admin),
        old(env)@.instance.admin == Some(stored),
    ensures
        result == Err::<(), Halt>(Halt::Rejected(FactoryError::AlreadyInitialized)),
        final(env)@ == old(env)@,
{
}

/// A factory without admin takes any admin that authorizes it and any stream contract,
/// every positive cap and every minimum duration of up to a hundred years of 365 days,
/// and stores them as given.  The cap is judged before the duration, and a refusal
/// changes nothing.
pub proof fn law_init_stores_its_arguments(
    env: &mut Env,
    admin: Address,
    contract: Address,
    cap: i128,
    seconds: u64,
    result: Result<(), Halt>,
)
    requires
        call_ensures(FluxoraFactory::init, (env, admin, contract, cap, seconds), result),
        old(env)@.authorized.contains(admin),
        old(env)@.instance.admin is None,
    ensures
        ({
            let pre = old(env)@;
            let post = final(env)@;
            &&& cap > 0 && seconds <= 100 * 365 * 86_400 ==> {
                &&& result == Ok::<(), Halt>(())
                &&& post.instance.admin == Some(admin)
                &&& post.instance.stream_contract == Some(contract)
                &&& post.instance.max_deposit == Some(cap)
                &&& post.instance.min_duration == Some(seconds)
                &&& post.instance.creation_paused == pre.instance.creation_paused
                &&& post.allowlist == pre.allowlist
                &&& post.authorized == pre.authorized
                &&& post.effects == pre.effects + seq![
                    Effect::Store(DataKey::Admin),
                    Effect::Store(DataKey::StreamContract),
                    Effect::Store(DataKey::MaxDepositCap),
                    Effect::Store(DataKey::MinDuration),
                    Effect::ExtendInstanceTtl { threshold: 17_280, extend_to: 120_960 },
                ]
            }
            &&& cap <= 0 ==> {
                &&& result == Err::<(), Halt>(Halt::Rejected(FactoryError::InvalidCap))
                &&& post == pre
            }
            &&& cap > 0 && seconds > 100 * 365 * 86_400 ==> {
                &&& result == Err::<(), Halt>(Halt::Rejected(FactoryError::InvalidMinDuration))
                &&& post == pre
            }
        }),
{
}

/// `init` accepts a cap and a minimum duration exactly when the admin of a running
/// factory could set both.
pub proof fn law_init_and_setters_accept_the_same_bounds(
    new: EnvView,
    running: EnvView,
    admin: Address,
    contract: Address,
    cap: i128,
    seconds: u64,
)
    requires
        new.instance.admin is None,
        new.authorized.contains(admin),
        running.instance.admin == Some(admin),
        running.authorized.contains(admin),
    ensures
        crate::model::init_call(new, admin, contract, cap, seconds).1 is Ok <==> {
            &&& crate::model::set_cap_call(running, cap).1 is Ok
            &&& crate::model::set_min_duration_call(running, seconds).1 is Ok
        },
{
}

// How settings relate.

/// The last setting counts: what was set before under the same key leaves no trace in
/// the entries.
pub proof fn law_last_setting_counts(
    pre: EnvView,
    admin: Address,
    recipient: Address,
    contracts: (Address, Address),
    caps: (i128, i128),
    seconds: (u64, u64),
    flags: (bool, bool),
)
    requires
        pre.instance.admin == Some(admin),
        pre.authorized.contains(admin),
        caps.1 > 0,
        seconds.1 <= 100 * 365 * 86_400,
    ensures
        crate::model::set_stream_contract_call(
            crate::model::set_stream_contract_call(pre, contracts.0).0,
            contracts.1,
        ).0.instance == (InstanceStorage { stream_contract: Some(contracts.1), ..pre.instance }),
        crate::model::set_cap_call(
            crate::model::set_cap_call(pre, caps.0).0,
            caps.1,
        ).0.instance == (InstanceStorage { max_deposit: Some(caps.1), ..pre.instance }),
        crate::model::set_min_duration_call(
            crate::model::set_min_duration_call(pre, seconds.0).0,
            seconds.1,
        ).0.instance == (InstanceStorage { min_duration: Some(seconds.1), ..pre.instance }),
        crate::model::set_factory_paused_call(
            crate::model::set_factory_paused_call(pre, flags.0).0,
            flags.1,
        ).0.instance == (InstanceStorage { creation_paused: Some(flags.1), ..pre.instance }),
        crate::model::set_allowlist_call(
            crate::model::set_allowlist_call(pre, recipient, flags.0).0,
            recipient,
            flags.1,
        ).0.allowlist.contains(recipient) == flags.1,
{
}

/// Settings under different keys do not disturb each other: in either order the same
/// entries are stored.
pub proof fn law_settings_commute(
    pre: EnvView,
    admin: Address,
    cap: i128,
    seconds: u64,
    paused: bool,
)
    requires
        pre.instance.admin == Some(admin),
        pre.authorized.contains(admin),
    ensures
        crate::model::set_cap_call(
            crate::model::set_min_duration_call(pre, seconds).0,
            cap,
        ).0.instance == crate::model::set_min_duration_call(
            crate::model::set_cap_call(pre, cap).0,
            seconds,
        ).0.instance,
        crate::model::set_cap_call(
            crate::model::set_factory_paused_call(pre, paused).0,
            cap,
        ).0.instance == crate::model::set_factory_paused_call(
            crate::model::set_cap_call(pre, cap).0,
            paused,
        ).0.instance,
        crate::model::set_min_duration_call(
            crate::model::set_factory_paused_call(pre, paused).0,
            seconds,
        ).0.instance == crate::model::set_factory_paused_call(
            crate::model::set_min_duration_call(pre, seconds).0,
            paused,
        ).0.instance,
{
}

// How a stream request is answered.

/// `create_stream` gives `answer` when it is called on `env` with `request` and `reply`.
pub open spec fn answers(
    env: Env,
    request: StreamRequest,
    reply: Option<StreamReply>,
    answer: Result<u64, Halt>,
) -> bool {
    call_ensures(
        FluxoraFactory::create_stream,
        (
            &env,
            request.sender,
            request.recipient,
            request.deposit_amount,
            request.rate_per_second,
            request.start_time,
            request.cliff_time,
            request.end_time,
            request.withdraw_dust_threshold,
            reply,
        ),
        answer,
    )
}

/// While the stored flag is `true`, every request is answered `CreationPaused`.
pub proof fn law_paused_factory_answers(
    env: Env,
    request: StreamRequest,
    reply: Option<StreamReply>,
    answer: Result<u64, Halt>,
)
    requires
        answers(env, request, reply, answer),
        env.instance.creation_paused == Some(true),
    ensures
        answer == Err::<u64, Halt>(
            Halt::Rejected(FactoryError::CreationPaused),
        ),
{
}

/// An unpaused factory that lacks the stream contract, the cap or the minimum duration
/// answers every request `NotInitialized`.
pub proof fn law_incomplete_factory_answers(
    env: Env,
    request: StreamRequest,
    reply: Option<StreamReply>,
    answer: Result<u64, Halt>,
)
    requires
        answers(env, request, reply, answer),
        env.instance.creation_paused != Some(true),
        env.instance.stream_contract is None || env.instance.max_deposit is None
            || env.instance.min_duration is None,
    ensures
        answer == Err::<u64, Halt>(
            Halt::Rejected(FactoryError::NotInitialized),
        ),
{
}

/// On a running factory the first rule that a request breaks is its answer, whoever has
/// authorized it and whatever the stream contract would say: the allowlist, the cap,
/// the order of start and end, the place of the cliff, the minimum duration.
pub proof fn law_first_broken_rule_answers(
    env: Env,
    contract: Address,
    cap: i128,
    shortest: u64,
    request: StreamRequest,
    reply: Option<StreamReply>,
    answer: Result<u64, Halt>,
)
    requires
        answers(env, request, reply, answer),
        env.instance.creation_paused != Some(true),
        env.instance.stream_contract == Some(contract),
        env.instance.max_deposit == Some(cap),
        env.instance.min_duration == Some(shortest),
    ensures
        ({
            if !env.allowlist@.contains(request.recipient) {
                answer == Err::<u64, Halt>(Halt::Rejected(FactoryError::RecipientNotAllowlisted))
            } else if cap < request.deposit_amount {
                answer == Err::<u64, Halt>(Halt::Rejected(FactoryError::DepositExceedsCap))
            } else if request.end_time <= request.start_time {
                answer == Err::<u64, Halt>(Halt::Rejected(FactoryError::InvalidTimeRange))
            } else if request.cliff_time < request.start_time || request.end_time
                < request.cliff_time {
                answer == Err::<u64, Halt>(Halt::Rejected(FactoryError::InvalidCliff))
            } else if request.end_time < request.start_time + shortest {
                answer == Err::<u64, Halt>(Halt::Rejected(FactoryError::DurationTooShort))
            } else {
                answer matches Err(Halt::Rejected(e)) ==> e == FactoryError::StreamContractPaused
                    || e == FactoryError::StreamContractError
            }
        }),
{
}

/// A request that keeps every rule waits for its sender's authorization, then for the
/// call on the stored stream contract with exactly what was requested, and then ends as
/// that contract answers: with the new stream's id, with `StreamContractPaused` where
/// the contract is paused, and with `StreamContractError` otherwise.
pub proof fn law_request_within_policy_is_carried_out(
    env: Env,
    contract: Address,
    cap: i128,
    shortest: u64,
    request: StreamRequest,
    reply: Option<StreamReply>,
    answer: Result<u64, Halt>,
)
    requires
        answers(env, request, reply, answer),
        env.instance.creation_paused != Some(true),
        env.instance.stream_contract == Some(contract),
        env.instance.max_deposit == Some(cap),
        env.instance.min_duration == Some(shortest),
        env.allowlist@.contains(request.recipient),
        request.deposit_amount <= cap,
        request.start_time < request.end_time,
        request.start_time <= request.cliff_time <= request.end_time,
        request.start_time + shortest <= request.end_time,
    ensures
        ({
            if !env.authorized@.contains(request.sender) {
                answer == Err::<u64, Halt>(Halt::AuthRequired(request.sender))
            } else {
                match reply {
                    None => answer == Err::<u64, Halt>(
                        Halt::CallRequired(
                            StreamCall {
                                contract,
                                sender: request.sender,
                                recipient: request.recipient,
                                deposit_amount: request.deposit_amount,
                                rate_per_second: request.rate_per_second,
                                start_time: request.start_time,
                                cliff_time: request.cliff_time,
                                end_time: request.end_time,
                                withdraw_dust_threshold: request.withdraw_dust_threshold,
                                memo: None,
                                kind: StreamKind::Linear,
                            },
                        ),
                    ),
                    Some(StreamReply::Created(stream_id)) => answer == Ok::<u64, Halt>(stream_id),
                    Some(StreamReply::Refused(ContractError::ContractPaused)) => answer == Err::<
                        u64,
                        Halt,
                    >(Halt::Rejected(FactoryError::StreamContractPaused)),
                    Some(_) => answer == Err::<u64, Halt>(
                        Halt::Rejected(FactoryError::StreamContractError),
                    ),
                }
            }
        }),
{
}

/// A stream is never opened with a deposit above the stored cap, for a recipient that
/// is not allowlisted, on a schedule that is out of order or too short, in the name of
/// a sender that has not authorized it, or while creation is paused.
pub proof fn law_opened_streams_keep_the_policy(
    env: Env,
    request: StreamRequest,
    reply: Option<StreamReply>,
    answer: Result<u64, Halt>,
)
    requires
        answers(env, request, reply, answer),
        answer is Ok,
    ensures
        env.instance.creation_paused != Some(true),
        env.instance.stream_contract is Some,
        env.instance.max_deposit matches Some(cap) && request.deposit_amount <= cap,
        env.instance.min_duration matches Some(shortest) && request.start_time + shortest
            <= request.end_time,
        env.allowlist@.contains(request.recipient),
        env.authorized@.contains(request.sender),
        request.start_time < request.end_time,
        request.start_time <= request.cliff_time <= request.end_time,
        reply matches Some(StreamReply::Created(_)),
{
}

/// A smaller deposit is never worse: where a stream is opened, it is opened for every
/// deposit below too.
pub proof fn law_smaller_deposits_are_accepted(
    pre: EnvView,
    request: StreamRequest,
    reply: Option<StreamReply>,
    deposit_amount: i128,
)
    requires
        crate::model::create_stream_call(pre, request, reply) is Ok,
        deposit_amount <= request.deposit_amount,
    ensures
        crate::model::create_stream_call(pre, StreamRequest { deposit_amount, ..request }, reply)
            == crate::model::create_stream_call(pre, request, reply),
{
}

/// Only the distances between start, cliff and end count: a schedule moved as a whole is
/// answered alike.
pub proof fn law_moved_schedule_is_answered_alike(
    pre: EnvView,
    request: StreamRequest,
    moved: StreamRequest,
    by: int,
    answer: StreamReply,
)
    requires
        moved.sender == request.sender,
        moved.recipient == request.recipient,
        moved.deposit_amount == request.deposit_amount,
        moved.start_time == request.start_time + by,
        moved.cliff_time == request.cliff_time + by,
        moved.end_time == request.end_time + by,
    ensures
        crate::model::create_stream_call(pre, moved, Some(answer))
            == crate::model::create_stream_call(pre, request, Some(answer)),
{
}

/// The rate and the dust threshold are the stream contract's business: once it has
/// answered, requests that differ in nothing else end alike.
pub proof fn law_rate_and_dust_are_not_judged(
    pre: EnvView,
    request: StreamRequest,
    rate_per_second: i128,
    withdraw_dust_threshold: i128,
    answer: StreamReply,
)
    ensures
        crate::model::create_stream_call(
            pre,
            StreamRequest { rate_per_second, withdraw_dust_threshold, ..request },
            Some(answer),
        ) == crate::model::create_stream_call(pre, request, Some(answer)),
{
}

/// No address is special: two requests whose senders have both authorized them, and
/// whose recipients are both allowlisted or both not, are answered alike once the
/// stream contract has answered.
pub proof fn law_addresses_are_treated_alike(
    pre: EnvView,
    request: StreamRequest,
    sender: Address,
    recipient: Address,
    answer: StreamReply,
)
    requires
        pre.authorized.contains(request.sender),
        pre.authorized.contains(sender),
        pre.allowlist.contains(request.recipient) == pre.allowlist.contains(recipient),
    ensures
        crate::model::create_stream_call(
            pre,
            StreamRequest { sender, recipient, ..request },
            Some(answer),
        ) == crate::model::create_stream_call(pre, request, Some(answer)),
{
}

/// A pause set by the admin is what requests meet: afterwards every one of them is
/// answered `CreationPaused`, and after a resumption none is.
pub proof fn law_pause_decides_requests(
    pre: EnvView,
    admin: Address,
    paused: bool,
    request: StreamRequest,
    reply: Option<StreamReply>,
)
    requires
        pre.instance.admin == Some(admin),
        pre.authorized.contains(admin),
    ensures
        crate::model::create_stream_call(
            crate::model::set_factory_paused_call(pre, paused).0,
            request,
            reply,
        ) == Err::<u64, Halt>(Halt::Rejected(FactoryError::CreationPaused)) <==> paused,
{
}

/// A cap set by the admin is what requests meet: of a request that is opened before,
/// the deposit alone decides whether it is opened afterwards.
pub proof fn law_cap_decides_requests(
    pre: EnvView,
    admin: Address,
    cap: i128,
    request: StreamRequest,
    reply: Option<StreamReply>,
)
    requires
        pre.instance.admin == Some(admin),
        pre.authorized.contains(admin),
        cap > 0,
        crate::model::create_stream_call(pre, request, reply) is Ok,
    ensures
        ({
            let post = crate::model::set_cap_call(pre, cap).0;
            crate::model::create_stream_call(post, request, reply) == if request.deposit_amount
                <= cap {
                crate::model::create_stream_call(pre, request, reply)
            } else {
                Err(Halt::Rejected(FactoryError::DepositExceedsCap))
            }
        }),
{
}

/// A minimum duration set by the admin is what requests meet: of a request that is
/// opened before, its length alone decides whether it is opened afterwards.
pub proof fn law_min_duration_decides_requests(
    pre: EnvView,
    admin: Address,
    seconds: u64,
    request: StreamRequest,
    reply: Option<StreamReply>,
)
    requires
        pre.instance.admin == Some(admin),
        pre.authorized.contains(admin),
        seconds <= 100 * 365 * 86_400,
        crate::model::create_stream_call(pre, request, reply) is Ok,
    ensures
        ({
            let post = crate::model::set_min_duration_call(pre, seconds).0;
            crate::model::create_stream_call(post, request, reply) == if request.start_time
                + seconds <= request.end_time {
                crate::model::create_stream_call(pre, request, reply)
            } else {
                Err(Halt::Rejected(FactoryError::DurationTooShort))
            }
        }),
{
}

/// An allowlist entry set by the admin is what requests meet: of a request that is
/// opened before, only one for a removed recipient is refused afterwards.
pub proof fn law_allowlist_decides_requests(
    pre: EnvView,
    admin: Address,
    recipient: Address,
    allowed: bool,
    request: StreamRequest,
    reply: Option<StreamReply>,
)
    requires
        pre.instance.admin == Some(admin),
        pre.authorized.contains(admin),
        crate::model::create_stream_call(pre, request, reply) is Ok,
    ensures
        ({
            let post = crate::model::set_allowlist_call(pre, recipient, allowed).0;
            crate::model::create_stream_call(post, request, reply) == if request.recipient
                == recipient && !allowed {
                Err(Halt::Rejected(FactoryError::RecipientNotAllowlisted))
            } else {
                crate::model::create_stream_call(pre, request, reply)
            }
        }),
{
}

} // verus!
