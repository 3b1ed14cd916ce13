# mux_contracts

Verified models of the Mux Protocol smart-account contracts for Soroban:
account, recovery, permissions, delegation, spending policy, batcher,
account factory, contract registry and wallet registry.

Each contract is a plain-value state machine in `src/`, verified with Verus.
Its fields are the contract's instance storage; each entrypoint is a method
that takes the invocation context (`host::Env`: ledger sequence and time,
the addresses that authorized the call, and the logs of demanded
authorizations and published events) and returns what the contract returns.
The contracts state, in their `ensures`, the result and the new storage for
every input, when each error comes, which authorizations are demanded and
which events are published; a failed invocation leaves the storage
unchanged.

Entrypoints that call other contracts in the middle of their work (the
batcher's `execute_batch`, the account's `execute` and session calls) are
split into steps: the library decides, the host makes the call, and hands
the outcome back to the next step. `recovery::set_registry` takes whether
the registry answered as an argument.

Layout:

- `src/host.rs` — the invocation context and the authorization checks.
- `src/keys.rs`, `src/table.rs` — lists of identifiers and an ordered map
  with distinct keys, with their lemmas.
- `src/<contract>.rs` — one module per contract, with its invariant, its
  entrypoints and the laws that relate them (public proof functions).
- `tests/` — the contracts' scenarios, one file per contract.
- `app/` — the contracts on the Soroban host: storage, authorization,
  events, outgoing calls and upgrades around the library (not verified).
