# solstaking

A token staking program for Solana, with its decisions verified by Verus.

- `src/` is the verified library. `state/` holds the pool and master accounts,
  addresses and the token-account fields that the program reads, with the
  rules on pool parameters and names. `instructions/` holds one module per
  instruction: the plain-value account set it reads, a specification of its
  answer, and the verified function that takes the decision (errors, new pool
  state, tokens to transfer or burn, lamports to move). `clock.rs` is the one
  call into the runtime (the cluster clock). `laws.rs` proves properties that
  span instructions.
- `app/` is the Anchor program around the library: account layouts, entry
  points, and the token and lamport movements that the library asks for.
- `tests/` runs the library on concrete values.
