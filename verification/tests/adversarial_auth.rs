//! A stream is never requested in the name of a sender who did not authorize it.

use fluxora_factory::{Address, Env, FactoryError, FluxoraFactory, Halt, StreamReply};

const ADMIN: Address = Address { strkey: [b'A'; 56] };
const SENDER: Address = Address { strkey: [b'B'; 56] };
const RECIPIENT: Address = Address { strkey: [b'D'; 56] };
const ATTACKER: Address = Address { strkey: [b'E'; 56] };
const STREAM: Address = Address { strkey: [b'F'; 56] };
const START: u64 = 1_000_000_000;

fn setup(authorized: &[Address]) -> Env {
    let mut first = Env::default();
    first.authorize(ADMIN);
    assert_eq!(
        FluxoraFactory::init(&mut first, ADMIN, STREAM, 10_000_000, 86_400),
        Ok(())
    );
    assert_eq!(FluxoraFactory::set_allowlist(&mut first, RECIPIENT, true), Ok(()));

    let mut env = Env::default();
    env.instance = first.instance;
    env.allowlist = first.allowlist;
    for address in authorized {
        env.authorize(*address);
    }
    env
}

fn create(env: &Env, recipient: Address, reply: Option<StreamReply>) -> Result<u64, Halt> {
    FluxoraFactory::create_stream(
        env, SENDER, recipient, 100_000, 1, START, START, START + 200_000, 0, reply,
    )
}

#[test]
fn test_create_stream_no_auth_fails() {
    let env = setup(&[]);
    assert_eq!(create(&env, RECIPIENT, None), Err(Halt::AuthRequired(SENDER)));
    let answered = Some(StreamReply::Created(0));
    assert_eq!(create(&env, RECIPIENT, answered), Err(Halt::AuthRequired(SENDER)));
}

#[test]
fn test_create_stream_spoofed_sender_fails() {
    let env = setup(&[ATTACKER]);
    assert_eq!(create(&env, RECIPIENT, None), Err(Halt::AuthRequired(SENDER)));
}

#[test]
fn test_create_stream_third_party_relay_fails() {
    let env = setup(&[ATTACKER, ADMIN, RECIPIENT]);
    assert_eq!(create(&env, RECIPIENT, None), Err(Halt::AuthRequired(SENDER)));
}

#[test]
fn test_create_stream_correct_dual_auth_succeeds() {
    let env = setup(&[SENDER]);
    assert!(create(&env, RECIPIENT, Some(StreamReply::Created(0))).is_ok());
}

#[test]
fn policy_is_checked_before_authorization() {
    let env = setup(&[]);
    assert_eq!(
        create(&env, ATTACKER, None),
        Err(Halt::Rejected(FactoryError::RecipientNotAllowlisted))
    );
}

#[test]
fn addresses_differ_by_a_single_character() {
    let mut strkey = SENDER.strkey;
    strkey[55] = b'7';
    let twin = Address { strkey };
    let env = setup(&[twin]);
    assert_eq!(create(&env, RECIPIENT, None), Err(Halt::AuthRequired(SENDER)));
    assert_eq!(create(&setup(&[twin, SENDER]), RECIPIENT, Some(StreamReply::Created(2))), Ok(2));
}
