# mfight_sdk

Building blocks for NEAR smart contracts, verified with Verus: a pause
switch, storage deposits, reputation points, an NFT rent market, tournaments
with prizes and NFT entry, and referral programs.

## Layout

- `src/` — the library. Every function carries a contract over a
  mathematical view of the state (`RentState`, `TournamentState`,
  `ReferralState`, and the closed views of the storage and reputation
  features). Calls that would read the blockchain take what they need as
  arguments (the caller, the attached deposit, the block time, whether a
  previous promise succeeded), and transfers and cross-contract calls come
  back as values.
  - `collections.rs` — the in-memory map and insertion-ordered set the
    features keep their records in.
  - `laws.rs` — properties that span several operations, proved over the
    views.
- `tests/` — scenarios run against the compiled library.
- `app/` — the NEAR glue: reads the call context, performs the transfers and
  calls the library returns, logs events, and holds the serde copies of the
  JSON types.
