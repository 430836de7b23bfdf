//! A factory request from its first check to the stream contract's answer.

use fluxora_factory::{
    Address, ContractError, Env, FactoryError, FluxoraFactory, Halt, StreamCall,
    StreamKind, StreamReply,
};

const MAX_DEPOSIT: i128 = 10_000_000;
const MIN_DURATION: u64 = 86_400;
const DEPOSIT_AMOUNT: i128 = 200_000;
const RATE_PER_SECOND: i128 = 1;
const STREAM_DURATION: u64 = 200_000;
const NOW: u64 = 1_000_000_000;

const ADMIN: Address = Address { strkey: [b'A'; 56] };
const SENDER: Address = Address { strkey: [b'B'; 56] };
const RECIPIENT: Address = Address { strkey: [b'D'; 56] };
const UNKNOWN: Address = Address { strkey: [b'E'; 56] };
const STREAM: Address = Address { strkey: [b'F'; 56] };

fn setup() -> Env {
    let mut env = Env::default();
    env.authorize(ADMIN);
    env.authorize(SENDER);
    assert_eq!(
        FluxoraFactory::init(&mut env, ADMIN, STREAM, MAX_DEPOSIT, MIN_DURATION),
        Ok(())
    );
    assert_eq!(FluxoraFactory::set_allowlist(&mut env, RECIPIENT, true), Ok(()));
    env
}

/// Follows a request through its steps: the stream contract is called at most once,
/// and answers `reply`.
fn run(
    env: &Env,
    recipient: Address,
    deposit: i128,
    start: u64,
    cliff: u64,
    end: u64,
    reply: StreamReply,
) -> (Option<StreamCall>, Result<u64, Halt>) {
    let first = FluxoraFactory::create_stream(
        env, SENDER, recipient, deposit, RATE_PER_SECOND, start, cliff, end, 0, None,
    );
    match first {
        Err(Halt::CallRequired(call)) => {
            let last = FluxoraFactory::create_stream(
                env, SENDER, recipient, deposit, RATE_PER_SECOND, start, cliff, end, 0,
                Some(reply),
            );
            (Some(call), last)
        }
        other => (None, other),
    }
}

fn create(env: &Env, deposit: i128, start: u64, cliff: u64, end: u64) -> Result<u64, Halt> {
    run(env, RECIPIENT, deposit, start, cliff, end, StreamReply::Created(0)).1
}

fn rejected<T>(e: FactoryError) -> Result<T, Halt> {
    Err(Halt::Rejected(e))
}

#[test]
fn test_create_stream_happy_path() {
    let env = setup();
    let end = NOW + STREAM_DURATION;
    let (call, result) =
        run(&env, RECIPIENT, DEPOSIT_AMOUNT, NOW, NOW, end, StreamReply::Created(0));

    assert_eq!(result, Ok(0), "first stream gets id 0");

    let state = call.unwrap();
    assert_eq!(state.contract, STREAM);
    assert_eq!(state.sender, SENDER);
    assert_eq!(state.recipient, RECIPIENT);
    assert_eq!(state.deposit_amount, DEPOSIT_AMOUNT);
    assert_eq!(state.rate_per_second, RATE_PER_SECOND);
    assert_eq!(state.start_time, NOW);
    assert_eq!(state.cliff_time, NOW);
    assert_eq!(state.end_time, end);
    assert_eq!(state.withdraw_dust_threshold, 0);
    assert_eq!(state.memo, None);
    assert_eq!(state.kind, StreamKind::Linear);
}

#[test]
fn factory_stream_e2e_test_create_stream_recipient_not_allowlisted() {
    let env = setup();
    let (call, result) = run(
        &env, UNKNOWN, DEPOSIT_AMOUNT, NOW, NOW, NOW + STREAM_DURATION, StreamReply::Created(0),
    );
    assert_eq!(result, rejected(FactoryError::RecipientNotAllowlisted));
    assert_eq!(call, None);
}

#[test]
fn factory_stream_e2e_test_create_stream_deposit_exceeds_cap() {
    let env = setup();
    let result = create(&env, MAX_DEPOSIT + 1, NOW, NOW, NOW + STREAM_DURATION);
    assert_eq!(result, rejected(FactoryError::DepositExceedsCap));
}

#[test]
fn factory_stream_e2e_test_create_stream_deposit_at_cap_ok() {
    let env = setup();
    let result = create(&env, MAX_DEPOSIT, NOW, NOW, NOW + STREAM_DURATION);
    assert_ne!(result, rejected(FactoryError::DepositExceedsCap));
}

#[test]
fn factory_stream_e2e_test_create_stream_duration_too_short() {
    let env = setup();
    let result = create(&env, DEPOSIT_AMOUNT, NOW, NOW, NOW + MIN_DURATION - 1);
    assert_eq!(result, rejected(FactoryError::DurationTooShort));
}

#[test]
fn factory_stream_e2e_test_create_stream_duration_at_minimum_ok() {
    let env = setup();
    let result = create(&env, DEPOSIT_AMOUNT, NOW, NOW, NOW + MIN_DURATION);
    assert_ne!(result, rejected(FactoryError::DurationTooShort));
}

#[test]
fn test_create_stream_invalid_time_range_end_before_start() {
    let env = setup();
    let result = create(&env, DEPOSIT_AMOUNT, NOW + 200, NOW + 200, NOW + 100);
    assert_eq!(result, rejected(FactoryError::InvalidTimeRange));
}

#[test]
fn test_create_stream_invalid_time_range_end_equal_start() {
    let env = setup();
    let result = create(&env, DEPOSIT_AMOUNT, NOW, NOW, NOW);
    assert_eq!(result, rejected(FactoryError::InvalidTimeRange));
}

#[test]
fn test_create_stream_invalid_cliff_before_start() {
    let env = setup();
    let result = create(&env, DEPOSIT_AMOUNT, NOW + 100, NOW, NOW + 300);
    assert_eq!(result, rejected(FactoryError::InvalidCliff));
}

#[test]
fn test_create_stream_invalid_cliff_after_end() {
    let env = setup();
    let result = create(&env, DEPOSIT_AMOUNT, NOW, NOW + 300, NOW + 200);
    assert_eq!(result, rejected(FactoryError::InvalidCliff));
}

#[test]
fn test_create_stream_cliff_at_start() {
    let env = setup();
    let end = NOW + STREAM_DURATION;
    let (call, result) =
        run(&env, RECIPIENT, DEPOSIT_AMOUNT, NOW, NOW, end, StreamReply::Created(0));
    assert_eq!(result, Ok(0));
    let state = call.unwrap();
    assert_eq!(state.cliff_time, NOW);
    assert_eq!(state.cliff_time, state.start_time);
}

#[test]
fn test_create_stream_cliff_at_end() {
    let env = setup();
    let end = NOW + STREAM_DURATION;
    let (call, result) =
        run(&env, RECIPIENT, DEPOSIT_AMOUNT, NOW, end, end, StreamReply::Created(0));
    assert_eq!(result, Ok(0));
    let state = call.unwrap();
    assert_eq!(state.cliff_time, end);
    assert_eq!(state.cliff_time, state.end_time);
}

#[test]
fn test_create_stream_requires_sender_auth() {
    let initialized = setup();
    let mut env = Env::default();
    env.instance = initialized.instance;
    env.allowlist = initialized.allowlist;
    let result = create(&env, DEPOSIT_AMOUNT, NOW, NOW, NOW + STREAM_DURATION);
    assert_eq!(result, Err(Halt::AuthRequired(SENDER)));
}

#[test]
fn test_create_stream_factory_not_initialized_returns_not_initialized() {
    let mut env = Env::default();
    env.authorize(SENDER);
    let result = create(&env, DEPOSIT_AMOUNT, NOW, NOW, NOW + STREAM_DURATION);
    assert_eq!(result, rejected(FactoryError::NotInitialized));
}

#[test]
fn test_set_cap_enforced_end_to_end() {
    let mut env = setup();
    assert_eq!(FluxoraFactory::set_cap(&mut env, 5_000), Ok(()));
    let result = create(&env, 6_000, NOW, NOW, NOW + STREAM_DURATION);
    assert_eq!(result, rejected(FactoryError::DepositExceedsCap));
}

#[test]
fn test_set_min_duration_enforced_end_to_end() {
    let mut env = setup();
    assert_eq!(FluxoraFactory::set_min_duration(&mut env, 500_000), Ok(()));
    let result = create(&env, DEPOSIT_AMOUNT, NOW, NOW, NOW + 200_000);
    assert_eq!(result, rejected(FactoryError::DurationTooShort));
}

#[test]
fn test_remove_allowlist_enforced_end_to_end() {
    let mut env = setup();
    assert_eq!(FluxoraFactory::set_allowlist(&mut env, RECIPIENT, false), Ok(()));
    let result = create(&env, DEPOSIT_AMOUNT, NOW, NOW, NOW + STREAM_DURATION);
    assert_eq!(result, rejected(FactoryError::RecipientNotAllowlisted));
}

#[test]
fn stream_contract_answers_are_told_apart() {
    let env = setup();
    let end = NOW + STREAM_DURATION;
    let answered = |reply| run(&env, RECIPIENT, DEPOSIT_AMOUNT, NOW, NOW, end, reply).1;

    assert_eq!(answered(StreamReply::Created(41)), Ok(41));
    assert_eq!(
        answered(StreamReply::Refused(ContractError::ContractPaused)),
        rejected(FactoryError::StreamContractPaused)
    );
    assert_eq!(
        answered(StreamReply::Refused(ContractError::Other(3))),
        rejected(FactoryError::StreamContractError)
    );
    assert_eq!(
        answered(StreamReply::Unreadable),
        rejected(FactoryError::StreamContractError)
    );
    assert_eq!(answered(StreamReply::Aborted), rejected(FactoryError::StreamContractError));
}

#[test]
fn pause_comes_before_every_other_check() {
    let mut env = setup();
    assert_eq!(FluxoraFactory::set_factory_paused(&mut env, true), Ok(()));
    let paused = rejected(FactoryError::CreationPaused);
    assert_eq!(create(&env, DEPOSIT_AMOUNT, NOW, NOW, NOW + STREAM_DURATION), paused);
    assert_eq!(create(&env, MAX_DEPOSIT + 1, NOW, NOW, NOW), paused);
    assert_eq!(
        run(&env, UNKNOWN, 1, 5, 9, 3, StreamReply::Created(0)),
        (None, rejected(FactoryError::CreationPaused))
    );

    // Nothing of the policy is lost by the pause.
    assert_eq!(FluxoraFactory::set_factory_paused(&mut env, false), Ok(()));
    assert_eq!(create(&env, DEPOSIT_AMOUNT, NOW, NOW, NOW + STREAM_DURATION), Ok(0));
    assert_eq!(
        run(&env, UNKNOWN, 1, 5, 9, 3, StreamReply::Created(0)),
        (None, rejected(FactoryError::RecipientNotAllowlisted))
    );
}

#[test]
fn pause_alone_decides_where_nothing_else_is_loaded() {
    let mut env = Env::default();
    env.instance.creation_paused = Some(true);
    let result = create(&env, DEPOSIT_AMOUNT, NOW, NOW, NOW + STREAM_DURATION);
    assert_eq!(result, rejected(FactoryError::CreationPaused));
}

#[test]
fn checks_run_in_order() {
    let env = setup();
    // Unknown recipient, over the cap, bad schedule.
    assert_eq!(
        run(&env, UNKNOWN, MAX_DEPOSIT + 1, 9, 1, 2, StreamReply::Created(0)).1,
        rejected(FactoryError::RecipientNotAllowlisted)
    );
    // Over the cap, bad schedule.
    assert_eq!(create(&env, MAX_DEPOSIT + 1, 9, 1, 2), rejected(FactoryError::DepositExceedsCap));
    // Reversed, cliff outside.
    assert_eq!(create(&env, 1, 9, 1, 2), rejected(FactoryError::InvalidTimeRange));
    // Cliff outside, too short.
    assert_eq!(create(&env, 1, 1, 9, 2), rejected(FactoryError::InvalidCliff));
    // Too short.
    assert_eq!(create(&env, 1, 1, 2, 2), rejected(FactoryError::DurationTooShort));
}

#[test]
fn calls_go_to_the_configured_stream_contract() {
    let mut env = setup();
    let other = Address { strkey: [b'H'; 56] };
    assert_eq!(FluxoraFactory::set_stream_contract(&mut env, other), Ok(()));
    let (call, result) = run(
        &env, RECIPIENT, DEPOSIT_AMOUNT, NOW, NOW, NOW + STREAM_DURATION, StreamReply::Created(5),
    );
    assert_eq!(call.unwrap().contract, other);
    assert_eq!(result, Ok(5));
}

#[test]
fn request_details_reach_the_stream_contract_unchanged() {
    let env = setup();
    let result = FluxoraFactory::create_stream(
        &env, SENDER, RECIPIENT, -5, -7, NOW + 1, NOW + 2, NOW + STREAM_DURATION, -9, None,
    );
    assert_eq!(
        result,
        Err(Halt::CallRequired(StreamCall {
            contract: STREAM,
            sender: SENDER,
            recipient: RECIPIENT,
            deposit_amount: -5,
            rate_per_second: -7,
            start_time: NOW + 1,
            cliff_time: NOW + 2,
            end_time: NOW + STREAM_DURATION,
            withdraw_dust_threshold: -9,
            memo: None,
            kind: StreamKind::Linear,
        }))
    );
}
