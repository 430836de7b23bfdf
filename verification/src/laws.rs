//! What holds of the factory as a whole.
//!
//! Each law is a statement about the functions of [`crate::model`], which are the
//! contracts of the entry points.

use vstd::prelude::*;

use crate::address::Address;
use crate::env::EnvView;
use crate::error::{FactoryError, Halt, FACTORY_ERROR_COUNT};
use crate::factory::FactoryConfig;
use crate::model::StreamRequest;
use crate::stream::{ContractError, StreamCall, StreamKind, StreamReply};

verus! {

/// A call on the factory that can change it.
pub enum Change {
    Init { admin: Address, stream_contract: Address, max_deposit: i128, min_duration: u64 },
    SetAdmin { new_admin: Address },
    SetStreamContract { new_stream_contract: Address },
    SetAllowlist { recipient: Address, allowed: bool },
    SetCap { max_deposit: i128 },
    SetMinDuration { min_duration: u64 },
    SetFactoryPaused { paused: bool },
}

/// What the call `change` does.
pub open spec fn apply(pre: EnvView, change: Change) -> (EnvView, Result<(), Halt>) {
    match change {
        Change::Init { admin, stream_contract, max_deposit, min_duration } => {
            crate::model::init_call(pre, admin, stream_contract, max_deposit, min_duration)
        },
        Change::SetAdmin { new_admin } => crate::model::set_admin_call(pre, new_admin),
        Change::SetStreamContract { new_stream_contract } => {
            crate::model::set_stream_contract_call(pre, new_stream_contract)
        },
        Change::SetAllowlist { recipient, allowed } => {
            crate::model::set_allowlist_call(pre, recipient, allowed)
        },
        Change::SetCap { max_deposit } => crate::model::set_cap_call(pre, max_deposit),
        Change::SetMinDuration { min_duration } => {
            crate::model::set_min_duration_call(pre, min_duration)
        },
        Change::SetFactoryPaused { paused } => crate::model::set_factory_paused_call(pre, paused),
    }
}

/// The address whose authorization the call `change` needs, where there is one.
pub open spec fn authorizer(pre: EnvView, change: Change) -> Option<Address> {
    match change {
        Change::Init { admin, .. } => Some(admin),
        _ => pre.instance.admin,
    }
}

/// The environment after a run of calls, each with the authorizations its invocation
/// came with.
pub open spec fn run(start: EnvView, calls: Seq<(Set<Address>, Change)>) -> EnvView
    decreases calls.len(),
{
    if calls.len() == 0 {
        start
    } else {
        let before = run(start, calls.drop_last());
        let (authorized, change) = calls.last();
        apply(EnvView { authorized, ..before }, change).0
    }
}

/// A new factory is valid, unpaused, without policy and without allowlisted recipients.
pub proof fn law_fresh_factory(recipient: Address)
    ensures
        EnvView::fresh().valid(),
        !EnvView::fresh().paused(),
        EnvView::fresh().config() is None,
        !EnvView::fresh().allowlist.contains(recipient),
{
}

/// No call takes a factory out of its valid states: the policy is complete or absent,
/// a stored cap is positive and a stored minimum duration is within its ceiling.
pub proof fn law_calls_keep_valid(pre: EnvView, change: Change)
    requires
        pre.valid(),
    ensures
        apply(pre, change).0.valid(),
{
}

/// Whatever is called on a new factory, and with whichever authorizations, it stays
/// valid.
pub proof fn law_reachable_states_are_valid(calls: Seq<(Set<Address>, Change)>)
    ensures
        run(EnvView::fresh(), calls).valid(),
    decreases calls.len(),
{
    if calls.len() > 0 {
        law_reachable_states_are_valid(calls.drop_last());
        let before = run(EnvView::fresh(), calls.drop_last());
        law_calls_keep_valid(EnvView { authorized: calls.last().0, ..before }, calls.last().1);
    }
}

/// A call that does not succeed changes nothing and asks nothing of the host.
pub proof fn law_failed_call_changes_nothing(pre: EnvView, change: Change)
    ensures
        apply(pre, change).1 is Err ==> apply(pre, change).0 == pre,
{
}

/// No call succeeds without the authorization it needs: the declared admin's for
/// `init`, the stored admin's for every other.
pub proof fn law_success_needs_authorization(pre: EnvView, change: Change)
    ensures
        apply(pre, change).1 is Ok ==> authorizer(pre, change) is Some && pre.authorized.contains(
            authorizer(pre, change)->0,
        ),
{
}

/// A call that lacks a needed authorization asks for exactly that one, and changes
/// nothing until it is given.
pub proof fn law_missing_authorization_is_asked_for(pre: EnvView, change: Change)
    requires
        authorizer(pre, change) is Some,
        !pre.authorized.contains(authorizer(pre, change)->0),
    ensures
        apply(pre, change) == (pre, Err::<(), Halt>(
            Halt::AuthRequired(authorizer(pre, change)->0),
        )),
{
}

/// Before `init`, there is no configuration to read, and every other call reports that
/// the factory is not initialized.
pub proof fn law_uninitialized_factory_refuses(pre: EnvView, change: Change)
    requires
        pre.instance.admin is None,
        !(change is Init),
    ensures
        apply(pre, change) == (pre, Err::<(), Halt>(
            Halt::Rejected(FactoryError::NotInitialized),
        )),
        pre.config() is None,
{
}

/// Before `init`, a stream request is answered with `NotInitialized`, whatever it asks.
pub proof fn law_uninitialized_factory_creates_nothing(
    pre: EnvView,
    request: StreamRequest,
    reply: Option<StreamReply>,
)
    requires
        pre.valid(),
        pre.instance.admin is None,
    ensures
        crate::model::create_stream_call(pre, request, reply) == Err::<u64, Halt>(
            Halt::Rejected(FactoryError::NotInitialized),
        ),
{
}

/// A factory that has an admin never loses it.
pub proof fn law_initialized_for_good(pre: EnvView, change: Change)
    requires
        pre.instance.admin is Some,
    ensures
        apply(pre, change).0.instance.admin is Some,
{
}

/// `init` succeeds at most once: after any run of calls on an initialized factory it
/// is refused, whatever its arguments.
pub proof fn law_init_succeeds_once(
    start: EnvView,
    calls: Seq<(Set<Address>, Change)>,
    authorized: Set<Address>,
    again: Change,
)
    requires
        start.instance.admin is Some,
        again is Init,
        authorized.contains(again->admin),
    ensures
        ({
            let later = EnvView { authorized, ..run(start, calls) };
            apply(later, again) == (later, Err::<(), Halt>(
                Halt::Rejected(FactoryError::AlreadyInitialized),
            ))
        }),
{
    lemma_run_keeps_admin(start, calls);
}

proof fn lemma_run_keeps_admin(start: EnvView, calls: Seq<(Set<Address>, Change)>)
    requires
        start.instance.admin is Some,
    ensures
        run(start, calls).instance.admin is Some,
    decreases calls.len(),
{
    if calls.len() > 0 {
        lemma_run_keeps_admin(start, calls.drop_last());
        let before = run(start, calls.drop_last());
        law_initialized_for_good(EnvView { authorized: calls.last().0, ..before }, calls.last().1);
    }
}

/// An `init` that succeeds is read back as it was given, leaves creation unpaused and
/// allowlists nobody.
pub proof fn law_init_reads_back(
    pre: EnvView,
    admin: Address,
    stream_contract: Address,
    max_deposit: i128,
    min_duration: u64,
)
    requires
        pre.valid(),
        crate::model::init_call(pre, admin, stream_contract, max_deposit, min_duration).1 is Ok,
    ensures
        ({
            let post = crate::model::init_call(
                pre,
                admin,
                stream_contract,
                max_deposit,
                min_duration,
            ).0;
            &&& post.config() == Some(
                FactoryConfig { admin, stream_contract, max_deposit, min_duration },
            )
            &&& !post.paused()
            &&& post.allowlist == Set::<Address>::empty()
        }),
{
}

/// `init` succeeds exactly on a factory without admin, when the declared admin
/// authorizes it and both bounds can be stored.
pub proof fn law_init_succeeds_when(
    pre: EnvView,
    admin: Address,
    stream_contract: Address,
    max_deposit: i128,
    min_duration: u64,
)
    ensures
        crate::model::init_call(pre, admin, stream_contract, max_deposit, min_duration).1 is Ok
            <==> {
            &&& pre.authorized.contains(admin)
            &&& pre.instance.admin is None
            &&& max_deposit > 0
            &&& min_duration <= crate::factory::MAX_MIN_DURATION_SECONDS
        },
{
}

/// Each setter that succeeds is read back, and leaves every other part of the policy
/// as it was.
pub proof fn law_setter_reads_back(pre: EnvView, change: Change)
    requires
        pre.valid(),
        !(change is Init),
        apply(pre, change).1 is Ok,
    ensures
        ({
            let post = apply(pre, change).0;
            let config = pre.config()->0;
            &&& pre.config() is Some
            &&& post.config() == Some(
                match change {
                    Change::SetAdmin { new_admin } => FactoryConfig { admin: new_admin, ..config },
                    Change::SetStreamContract { new_stream_contract } => FactoryConfig {
                        stream_contract: new_stream_contract,
                        ..config
                    },
                    Change::SetCap { max_deposit } => FactoryConfig { max_deposit, ..config },
                    Change::SetMinDuration { min_duration } => FactoryConfig {
                        min_duration,
                        ..config
                    },
                    _ => config,
                },
            )
            &&& post.paused() == match change {
                Change::SetFactoryPaused { paused } => paused,
                _ => pre.paused(),
            }
            &&& forall|a: Address| #[trigger]
                post.allowlist.contains(a) == match change {
                    Change::SetAllowlist { recipient, allowed } => if a == recipient {
                        allowed
                    } else {
                        pre.allowlist.contains(a)
                    },
                    _ => pre.allowlist.contains(a),
                }
        }),
{
}

/// Once the admin has been replaced, only the new admin's authorization counts.
pub proof fn law_admin_rotation(pre: EnvView, new_admin: Address, authorized: Set<Address>)
    requires
        crate::model::set_admin_call(pre, new_admin).1 is Ok,
    ensures
        ({
            let later = EnvView {
                authorized,
                ..crate::model::set_admin_call(pre, new_admin).0
            };
            crate::model::authorized_admin(later) == if authorized.contains(new_admin) {
                Ok::<Address, Halt>(new_admin)
            } else {
                Err(Halt::AuthRequired(new_admin))
            }
        }),
{
}

/// Setting the admin to the one already stored leaves the policy as it was.
pub proof fn law_same_admin_is_noop(pre: EnvView)
    requires
        pre.instance.admin is Some,
    ensures
        ({
            let post = crate::model::set_admin_call(pre, pre.instance.admin->0).0;
            post.instance == pre.instance && post.allowlist == pre.allowlist
        }),
{
}

/// Removing a recipient that is not allowlisted leaves the allowlist as it was, and so
/// does adding one that is.
pub proof fn law_repeated_allowlist_change_is_noop(pre: EnvView, recipient: Address, allowed: bool)
    requires
        pre.allowlist.contains(recipient) == allowed,
    ensures
        crate::model::set_allowlist_call(pre, recipient, allowed).0.allowlist == pre.allowlist,
{
    assert(crate::model::set_allowlist_call(pre, recipient, allowed).0.allowlist =~= pre.allowlist);
}

/// Adding a recipient and removing it again gives back an allowlist that lacked it.
pub proof fn law_allowlist_removal_undoes_addition(pre: EnvView, recipient: Address)
    requires
        !pre.allowlist.contains(recipient),
        crate::model::set_allowlist_call(pre, recipient, true).1 is Ok,
    ensures
        ({
            let added = crate::model::set_allowlist_call(pre, recipient, true).0;
            let removed = crate::model::set_allowlist_call(added, recipient, false);
            removed.1 is Ok && removed.0.allowlist == pre.allowlist
        }),
{
    let added = crate::model::set_allowlist_call(pre, recipient, true).0;
    assert(crate::model::set_allowlist_call(added, recipient, false).0.allowlist =~= pre.allowlist);
}

/// A request is admissible when it breaks no rule of the policy.
pub open spec fn admissible(pre: EnvView, request: StreamRequest) -> bool {
    &&& !pre.paused()
    &&& pre.has_policy()
    &&& pre.allowlist.contains(request.recipient)
    &&& request.deposit_amount <= pre.instance.max_deposit->0
    &&& request.start_time < request.end_time
    &&& request.start_time <= request.cliff_time <= request.end_time
    &&& request.start_time + pre.instance.min_duration->0 <= request.end_time
}

/// A stream comes about exactly when the request is admissible, its sender authorizes
/// it and the stream contract answers with that stream.
pub proof fn law_stream_created_when(
    pre: EnvView,
    request: StreamRequest,
    reply: Option<StreamReply>,
    stream_id: u64,
)
    ensures
        crate::model::create_stream_call(pre, request, reply) == Ok::<u64, Halt>(stream_id) <==> {
            &&& admissible(pre, request)
            &&& pre.authorized.contains(request.sender)
            &&& reply == Some(StreamReply::Created(stream_id))
        },
{
}

/// The stream contract is called only for an admissible request that its sender
/// authorizes, on the configured contract and with what was requested.
pub proof fn law_calls_stay_within_policy(
    pre: EnvView,
    request: StreamRequest,
    reply: Option<StreamReply>,
    call: StreamCall,
)
    requires
        crate::model::create_stream_call(pre, request, reply) == Err::<u64, Halt>(
            Halt::CallRequired(call),
        ),
    ensures
        admissible(pre, request),
        pre.authorized.contains(request.sender),
        reply is None,
        pre.instance.stream_contract == Some(call.contract),
        call.sender == request.sender,
        call.recipient == request.recipient,
        call.deposit_amount == request.deposit_amount,
        call.rate_per_second == request.rate_per_second,
        call.start_time == request.start_time,
        call.cliff_time == request.cliff_time,
        call.end_time == request.end_time,
        call.withdraw_dust_threshold == request.withdraw_dust_threshold,
        call.memo is None,
        call.kind == StreamKind::Linear,
{
}

/// An admissible request first asks for its sender's authorization, then for the call
/// on the stream contract, and then ends with that contract's answer.
pub proof fn law_admissible_request_runs_to_the_reply(
    pre: EnvView,
    request: StreamRequest,
    answer: StreamReply,
)
    requires
        admissible(pre, request),
        !pre.authorized.contains(request.sender),
    ensures
        crate::model::create_stream_call(pre, request, None) == Err::<u64, Halt>(
            Halt::AuthRequired(request.sender),
        ),
        crate::model::create_stream_call(pre.authorize(request.sender), request, None) == Err::<
            u64,
            Halt,
        >(Halt::CallRequired(crate::model::stream_call(pre, request))),
        crate::model::create_stream_call(pre.authorize(request.sender), request, Some(answer))
            == match crate::model::reply_result(answer) {
            Ok(stream_id) => Ok::<u64, Halt>(stream_id),
            Err(e) => Err(Halt::Rejected(e)),
        },
{
}

/// A request that is not admissible is rejected without its sender's authorization
/// being asked for and without a call on the stream contract.
pub proof fn law_inadmissible_request_is_rejected(
    pre: EnvView,
    request: StreamRequest,
    reply: Option<StreamReply>,
)
    requires
        !admissible(pre, request),
    ensures
        crate::model::create_stream_call(pre, request, reply) matches Err(Halt::Rejected(_)),
{
}

/// Which error a request meets, and when: each rule is the reason exactly when the
/// ones before it hold and it does not, and the stream contract's refusals are reasons
/// only for an admissible request that its sender authorizes.
pub proof fn law_rejection_reasons(
    pre: EnvView,
    request: StreamRequest,
    reply: Option<StreamReply>,
    e: FactoryError,
)
    ensures
        crate::model::create_stream_call(pre, request, reply) == Err::<u64, Halt>(
            Halt::Rejected(e),
        ) <==> {
            let open = !pre.paused();
            let ready = open && pre.has_policy();
            let known = ready && pre.allowlist.contains(request.recipient);
            let funded = known && request.deposit_amount <= pre.instance.max_deposit->0;
            let ordered = funded && request.start_time < request.end_time;
            let scheduled = ordered && request.start_time <= request.cliff_time <= request.end_time;
            let sent = admissible(pre, request) && pre.authorized.contains(request.sender)
                && reply is Some;
            match e {
                FactoryError::CreationPaused => !open,
                FactoryError::NotInitialized => open && !ready,
                FactoryError::RecipientNotAllowlisted => ready && !known,
                FactoryError::DepositExceedsCap => known && !funded,
                FactoryError::InvalidTimeRange => funded && !ordered,
                FactoryError::InvalidCliff => ordered && !scheduled,
                FactoryError::DurationTooShort => scheduled && !admissible(pre, request),
                FactoryError::StreamContractPaused => sent && reply == Some(
                    StreamReply::Refused(ContractError::ContractPaused),
                ),
                FactoryError::StreamContractError => sent && !(reply->0 is Created) && reply
                    != Some(StreamReply::Refused(ContractError::ContractPaused)),
                _ => false,
            }
        },
{
}

/// While creation is paused, every request is answered alike, so nothing of the
/// policy shows.
pub proof fn law_pause_hides_policy(
    one: EnvView,
    other: EnvView,
    request: StreamRequest,
    other_request: StreamRequest,
    reply: Option<StreamReply>,
    other_reply: Option<StreamReply>,
)
    requires
        one.paused(),
        other.paused(),
    ensures
        crate::model::create_stream_call(one, request, reply) == Err::<u64, Halt>(
            Halt::Rejected(FactoryError::CreationPaused),
        ),
        crate::model::create_stream_call(one, request, reply) == crate::model::create_stream_call(
            other,
            other_request,
            other_reply,
        ),
{
}

/// Pausing and resuming gives back a factory that treats every request as before.
pub proof fn law_resume_undoes_pause(
    pre: EnvView,
    request: StreamRequest,
    reply: Option<StreamReply>,
)
    requires
        !pre.paused(),
        crate::model::set_factory_paused_call(pre, true).1 is Ok,
    ensures
        ({
            let paused = crate::model::set_factory_paused_call(pre, true).0;
            let resumed = crate::model::set_factory_paused_call(paused, false);
            &&& resumed.1 is Ok
            &&& resumed.0.config() == pre.config()
            &&& resumed.0.allowlist == pre.allowlist
            &&& crate::model::create_stream_call(resumed.0, request, reply)
                == crate::model::create_stream_call(pre, request, reply)
        }),
{
}

/// Whether `change` adds a rule that `request` breaks, and the error for breaking it.
pub open spec fn new_obstacle(change: Change, request: StreamRequest) -> Option<FactoryError> {
    match change {
        Change::SetCap { max_deposit } => if request.deposit_amount > max_deposit {
            Some(FactoryError::DepositExceedsCap)
        } else {
            None
        },
        Change::SetMinDuration { min_duration } => if request.start_time + min_duration
            > request.end_time {
            Some(FactoryError::DurationTooShort)
        } else {
            None
        },
        Change::SetAllowlist { recipient, allowed } => if request.recipient == recipient
            && !allowed {
            Some(FactoryError::RecipientNotAllowlisted)
        } else {
            None
        },
        Change::SetFactoryPaused { paused } => if paused {
            Some(FactoryError::CreationPaused)
        } else {
            None
        },
        _ => None,
    }
}

/// A new cap, a new minimum duration, a removed recipient and a pause bind every
/// later request.  One that was admissible before is answered with the error of the
/// rule it now breaks; one that breaks none of them stays admissible.
pub proof fn law_policy_changes_are_enforced(
    pre: EnvView,
    change: Change,
    request: StreamRequest,
    reply: Option<StreamReply>,
)
    requires
        !(change is Init),
        apply(pre, change).1 is Ok,
    ensures
        ({
            let post = apply(pre, change).0;
            let obstacle = new_obstacle(change, request);
            &&& obstacle is Some ==> !admissible(post, request)
            &&& obstacle is Some && admissible(pre, request) ==> crate::model::create_stream_call(
                post,
                request,
                reply,
            ) == Err::<u64, Halt>(Halt::Rejected(obstacle->0))
            &&& obstacle is None && admissible(pre, request) ==> admissible(post, request)
        }),
{
}

/// What a request is answered depends on the instance entries, on the one allowlist
/// entry of its recipient and on its sender's authorization, and on nothing else.
pub proof fn law_request_reads_one_allowlist_entry(
    one: EnvView,
    other: EnvView,
    request: StreamRequest,
    reply: Option<StreamReply>,
)
    requires
        one.instance == other.instance,
        one.allowlist.contains(request.recipient) == other.allowlist.contains(request.recipient),
        one.authorized.contains(request.sender) == other.authorized.contains(request.sender),
    ensures
        crate::model::create_stream_call(one, request, reply) == crate::model::create_stream_call(
            other,
            request,
            reply,
        ),
{
}

/// What a call was to carry out before stays, in order, and each call that succeeds
/// keeps the instance storage alive.
pub proof fn law_success_extends_lifetime(pre: EnvView, change: Change)
    requires
        apply(pre, change).1 is Ok,
    ensures
        pre.effects.is_prefix_of(apply(pre, change).0.effects),
        apply(pre, change).0.effects.skip(pre.effects.len() as int).contains(
            EnvView::ttl_extension(),
        ),
{
    let post = apply(pre, change).0;
    let added = post.effects.skip(pre.effects.len() as int);
    match change {
        Change::Init { .. } => {
            assert(added[4] == EnvView::ttl_extension());
        },
        _ => {
            assert(added[1] == EnvView::ttl_extension());
        },
    }
}

/// Different errors have different codes, all of them from 1 to the number of errors.
pub proof fn law_error_codes_are_unique(one: FactoryError, other: FactoryError)
    ensures
        1 <= one.spec_code() <= FACTORY_ERROR_COUNT,
        one.spec_code() == other.spec_code() ==> one == other,
{
}

/// An error is shown to clients under its own number.
pub proof fn law_error_code_is_its_number(e: FactoryError, code: u32)
    requires
        call_ensures(FactoryError::code, (e,), code),
    ensures
        code == e.spec_code(),
{
}

/// The number of each error, on which clients rely.
pub proof fn law_error_codes_are_stable()
    ensures
        FactoryError::AlreadyInitialized.spec_code() == 1,
        FactoryError::NotInitialized.spec_code() == 2,
        FactoryError::Unauthorized.spec_code() == 3,
        FactoryError::RecipientNotAllowlisted.spec_code() == 4,
        FactoryError::DepositExceedsCap.spec_code() == 5,
        FactoryError::DurationTooShort.spec_code() == 6,
        FactoryError::InvalidTimeRange.spec_code() == 7,
        FactoryError::InvalidCliff.spec_code() == 8,
        FactoryError::CreationPaused.spec_code() == 9,
        FactoryError::StreamContractPaused.spec_code() == 10,
        FactoryError::StreamContractError.spec_code() == 11,
        FactoryError::RateBelowMin.spec_code() == 12,
        FactoryError::RateAboveMax.spec_code() == 13,
        FactoryError::InvalidCap.spec_code() == 14,
        FactoryError::InvalidMinDuration.spec_code() == 15,
        FactoryError::InvalidMemo.spec_code() == 16,
{
}

/// Every code from 1 to the number of errors is in use.
pub proof fn law_error_codes_have_no_gaps(code: u32)
    requires
        1 <= code <= FACTORY_ERROR_COUNT,
    ensures
        exists|e: FactoryError| #[trigger] e.spec_code() == code,
{
    law_error_codes_are_stable();
}

} // verus!
