# prediction_market

Two-outcome prediction pools, verified with Verus. Users stake native SOL or
an SPL token on an outcome before the pool closes; the pool's admin resolves
it after its resolution time; the platform and the creator each collect a
0.5% fee; winners claim `stake / winning_side_total` of the remaining 99%.

- `src/` is the verified library:
  - `state.rs`: the account data (`Config`, `Pool`, `Stake`, `Pubkey`);
  - `fees.rs`: fee and payout arithmetic;
  - `market.rs`: every instruction as a spec function from the accounts it
    reads to the accounts it writes (or the error it answers), with the
    verified functions that compute it;
  - `timed.rs`: the instructions that read the cluster clock;
  - `instructions/` and `lib.rs`: the instruction handlers and entry points;
  - `laws.rs`: properties across instructions (ledger balance, one-shot
    resolution, fee collection and claims, betting closing before
    resolution, the vault covering every payout and fee);
  - `sysvar.rs`: the one call into the Solana runtime, the clock read.
- `app/` is the Anchor program around it: account validation, PDA seeds,
  transfers and account writes.
- `tests/` runs the library on concrete pools.
