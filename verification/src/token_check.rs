//! Smoke test of a candidate token contract.

use vstd::prelude::*;

use crate::address::Address;
use crate::stream::ContractError;

verus! {

/// One call on a token contract.
#[derive(Clone, Copy, Debug, PartialEq, Eq)]
pub enum TokenCall {
    /// `balance(id)`
    Balance { token: Address, id: Address },
    /// `transfer(from, to, amount)`
    Transfer { token: Address, from: Address, to: Address, amount: i128 },
}

/// How far a smoke test has come.  A call that traps aborts the invocation, so there
/// is no event for it.
#[derive(Clone, Copy, Debug, PartialEq, Eq, Structural)]
pub enum ProbeEvent {
    /// Nothing was called yet.
    Started,
    /// The balance query returned this balance.
    BalanceReturned(i128),
    /// The transfer returned.
    TransferReturned,
}

/// What a smoke test does next.
#[derive(Clone, Copy, Debug, PartialEq, Eq)]
pub enum ProbeStep {
    /// Make this call.
    Call(TokenCall),
    /// The token exposes what is expected of it.
    Passed,
}

/// The step that follows `event`.
pub open spec fn probe_step(
    current_contract: Address,
    token_address: Address,
    event: ProbeEvent,
) -> ProbeStep {
    match event {
        ProbeEvent::Started => ProbeStep::Call(
            TokenCall::Balance { token: token_address, id: current_contract },
        ),
        ProbeEvent::BalanceReturned(_) => ProbeStep::Call(
            TokenCall::Transfer {
                token: token_address,
                from: current_contract,
                to: current_contract,
                amount: 0,
            },
        ),
        ProbeEvent::TransferReturned => ProbeStep::Passed,
    }
}

/// Smoke-test a candidate token contract for SEP-41 compatibility.
///
/// Exercises two operations that must exist on a compliant token, whatever they
/// answer:
/// - `balance(current_contract)`
/// - `transfer(current_contract, current_contract, 0)`
///
/// The zero-amount self-transfer is a no-op on compliant tokens and verifies that
/// the token contract exposes the expected `transfer` entry point without
/// requiring an actual balance or allowance.
pub fn verify_token_behavior(
    current_contract: Address,
    token_address: Address,
    event: ProbeEvent,
) -> (step: Result<ProbeStep, ContractError>)
    ensures
        step == Ok::<ProbeStep, ContractError>(
            probe_step(current_contract, token_address, event),
        ),
        step == Ok::<ProbeStep, ContractError>(ProbeStep::Passed) <==> event
            == ProbeEvent::TransferReturned,
{
    match event {
        ProbeEvent::Started => Ok(
            ProbeStep::Call(TokenCall::Balance { token: token_address, id: current_contract }),
        ),
        ProbeEvent::BalanceReturned(_) => Ok(
            ProbeStep::Call(
                TokenCall::Transfer {
                    token: token_address,
                    from: current_contract,
                    to: current_contract,
                    amount: 0,
                },
            ),
        ),
        ProbeEvent::TransferReturned => Ok(ProbeStep::Passed),
    }
}

/// Whatever the addresses and whatever the balance, a smoke test asks the candidate
/// token for the contract's balance, then for a transfer of nothing from the contract to
/// itself, and passes once that transfer has returned and not before.
pub proof fn law_probe_steps(
    current_contract: Address,
    token_address: Address,
    event: ProbeEvent,
    step: Result<ProbeStep, ContractError>,
)
    requires
        call_ensures(verify_token_behavior, (current_contract, token_address, event), step),
    ensures
        event is Started ==> step == Ok::<ProbeStep, ContractError>(
            ProbeStep::Call(TokenCall::Balance { token: token_address, id: current_contract }),
        ),
        event is BalanceReturned ==> step == Ok::<ProbeStep, ContractError>(
            ProbeStep::Call(
                TokenCall::Transfer {
                    token: token_address,
                    from: current_contract,
                    to: current_contract,
                    amount: 0,
                },
            ),
        ),
        event is TransferReturned <==> step == Ok::<ProbeStep, ContractError>(ProbeStep::Passed),
{
}

/// Whether `event` can follow `step`: each call is answered by its own return, and
/// nothing follows the end.
pub open spec fn answers(event: ProbeEvent, step: ProbeStep) -> bool {
    match step {
        ProbeStep::Call(TokenCall::Balance { .. }) => event is BalanceReturned,
        ProbeStep::Call(TokenCall::Transfer { .. }) => event is TransferReturned,
        ProbeStep::Passed => false,
    }
}

/// The events of a smoke test so far: it has started, and each further event answers
/// the step before.
pub open spec fn is_probe_run(
    current_contract: Address,
    token_address: Address,
    events: Seq<ProbeEvent>,
) -> bool {
    &&& events.len() > 0
    &&& events[0] == ProbeEvent::Started
    &&& forall|i: int, j: int|
        0 <= i < j < events.len() && j == i + 1 ==> answers(
            #[trigger] events[j],
            probe_step(current_contract, token_address, #[trigger] events[i]),
        )
}

/// No run of a smoke test passes with fewer than its two calls, or makes any other: it
/// asks for the balance, then for the transfer, and passes exactly when both have
/// returned.
pub proof fn law_probe_passes_after_both_calls(
    current_contract: Address,
    token_address: Address,
    events: Seq<ProbeEvent>,
)
    requires
        is_probe_run(current_contract, token_address, events),
    ensures
        events.len() <= 3,
        probe_step(current_contract, token_address, events[0]) == ProbeStep::Call(
            TokenCall::Balance { token: token_address, id: current_contract },
        ),
        events.len() >= 2 ==> probe_step(current_contract, token_address, events[1])
            == ProbeStep::Call(
            TokenCall::Transfer {
                token: token_address,
                from: current_contract,
                to: current_contract,
                amount: 0,
            },
        ),
        probe_step(current_contract, token_address, events.last()) == ProbeStep::Passed <==> {
            &&& events.len() == 3
            &&& events[1] is BalanceReturned
            &&& events[2] is TransferReturned
        },
{
    if events.len() >= 2 {
        assert(answers(
            events[1],
            probe_step(current_contract, token_address, events[0]),
        ));
    }
    if events.len() >= 3 {
        assert(answers(
            events[2],
            probe_step(current_contract, token_address, events[1]),
        ));
    }
    if events.len() >= 4 {
        assert(answers(
            events[3],
            probe_step(current_contract, token_address, events[2]),
        ));
    }
}

/// What `id` owns; an address without an entry owns nothing.
pub open spec fn balance_of(balances: Map<Address, int>, id: Address) -> int {
    if balances.contains_key(id) {
        balances[id]
    } else {
        0
    }
}

/// The balances that a transfer leaves behind on a compliant token.
pub open spec fn transferred(
    balances: Map<Address, int>,
    from: Address,
    to: Address,
    amount: int,
) -> Map<Address, int> {
    let debited = balances.insert(from, balance_of(balances, from) - amount);
    debited.insert(to, balance_of(debited, to) + amount)
}

/// The transfer of the smoke test moves nothing: on a compliant token every address
/// owns afterwards what it owned before, whether or not the contract owns anything.
pub proof fn law_probe_moves_nothing(
    balances: Map<Address, int>,
    current_contract: Address,
    token_address: Address,
    balance: i128,
    id: Address,
)
    ensures
        probe_step(
            current_contract,
            token_address,
            ProbeEvent::BalanceReturned(balance),
        ) matches ProbeStep::Call(TokenCall::Transfer { from, to, amount, .. }) && balance_of(
            transferred(balances, from, to, amount as int),
            id,
        ) == balance_of(balances, id),
{
}

} // verus!
