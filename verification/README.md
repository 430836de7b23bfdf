# fluxora_factory

Treasury policy for payment streams that are opened through a factory contract.

The library in `src/` decides every factory call and is verified with Verus:

- `factory.rs`: the entry points of the factory
- `model.rs`: what each entry point does, as functions of the environment it starts from
- `laws.rs`: what holds of the factory as a whole
- `env.rs`, `address.rs`, `address_set.rs`: the environment of a call
- `error.rs`, `stream.rs`: errors, and the conversation with the stream contract
- `token_check.rs`: the smoke test of a token contract

A call that needs the ledger stops with a `Halt`: it names the address that has to
authorize the invocation, or the call to make on the stream contract. The host does
so, adds the answer, and repeats the call. What a successful call wants written or
published is listed in `Env::effects`.

`app/` is the Soroban contract around the library. It needs the `fluxora_stream`
contract crate for the client of the stream contract.
