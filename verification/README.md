# casper_staking

A verified core for two Casper smart contracts: an ERC20 token and a
staking-rewards contract (stake a token, earn another at a rate set for a
reward period).

- `src/` is the library, verified with Verus. Each contract call is a function
  from the contract's state and the call's inputs (caller, block time,
  arguments) to the new state and, where tokens move, the token-contract call
  to make. A refused call returns the reason and leaves the state unchanged.
  - `u256.rs`: 256-bit amounts; arithmetic through `casper_types::U256`.
  - `keys.rs`: account and contract hashes, keys, the storage names derived
    from them, and the caller taken from the call stack.
  - `ledger.rs`: a dictionary of amounts in which a missing entry reads as zero.
  - `erc20.rs`: the token.
  - `staking.rs`, `staking_ops.rs`: the staking-rewards contract.
  - `error.rs`: the contract's error codes and every way a call is refused.
- `app/` holds the contract entry points: they read storage and arguments,
  call the library, write back, and make the token calls.
- `tests/` runs the library on concrete scenarios.
