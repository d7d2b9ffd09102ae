# soroperps

A pool-based perpetual futures exchange, written in Verus: the logic of its
five contracts (liquidity vault, oracle adapter, position manager,
liquidation engine, funding rate) with contracts proved for every entry
point.

- `src/` — the verified library.
  - `types.rs` — addresses, positions, prices, errors, token transfers and
    what a list of transfers moves into an account.
  - `arith.rs`, `sums.rs` — truncating division and sums over maps, with the
    lemmas the proofs rest on.
  - `shares.rs`, `math.rs` — share, utilization, PnL, fee and funding
    arithmetic.
  - `vault.rs`, `oracle.rs`, `position_manager.rs`, `liquidation.rs`,
    `funding.rs` — one state type per contract and its entry points.
    Entry points that move tokens append the transfers they ask for to a
    list; the host carries them out.
- `tests/` — scenarios of each contract and of all five together, and the
  laws on concrete values.
- `app/` — the exchange as one Soroban contract: ledger storage, auth,
  token transfers and events around the library.
