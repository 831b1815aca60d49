# maxbtc

The decision logic of the maxBTC contracts on Neutron, verified with Verus.

- `src/` is the library. Each contract has a module whose functions take the
  stored state and the values a handler reads from the chain as plain values
  and return the new state and the messages to send; their contracts state
  the result exactly. `laws.rs` and `minter_laws.rs` hold the properties that
  span several handlers (state invariants, deposit and withdrawal cycles,
  fee and pricing bounds, allow-list membership).
- `decimal.rs`, `coin.rs`, `denom.rs`, `factory.rs` and `versioning.rs` hold
  the few calls into `cosmwasm-std`, `cw-utils` and `semver`, each behind a
  small function whose contract is trusted.
- `tests/` exercises the library on concrete values.
- `app/` holds the CosmWasm entry points: storage, queries to other contracts
  and the bank, address validation, and message encoding.
