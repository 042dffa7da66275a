# blend-adapter

A yield adapter that supplies a vault's USDC to a Blend lending pool on Soroban, verified with Verus.

- `src/` is the verified library. `adapter` holds the adapter's storage and how it is set up;
  `deposit`, `withdraw` and `accrue` are its operations, each a sequence of calls on the host
  (`host`) with the pool's types (`pool`); `accounting` is the arithmetic. `laws` states and proves
  what holds of whole operations and of operations that follow one another.
- `app/` is the Soroban contract around the library: it reads and writes the instance storage,
  performs the calls that an operation asks for, and hands the answers back.
- `tests/` runs the library by hand, answer by answer (`operations.rs`), and as a contract on the
  Soroban test host (`contract.rs`).

An operation never calls out by itself. It hands out one `HostCall` at a time, and goes on with the
`HostReply`. It writes to the storage in its last step only, so an operation that aborts has changed
nothing.

Trusted, and not proved, are the declarations in `pool` of what `soroban_sdk::Address::clone` and
`soroban_sdk::Map::try_get` do.
