# VoteChain

On-chain governance for token communities — proposals, token-weighted
Yes/No/Abstain voting with quorum and majority, a timelock before execution,
admin rotation, pausing and multi-sig admin actions — together with its
governance token, an offer marketplace, and the off-chain services that index
governance events. The contracts and the indexing logic are written in Verus
and proved against their specifications.

## Layout

- `src/` — the verified library.
  - `governance.rs`, `gov_types.rs` — the governance contract as a state
    machine over `GovView`: every operation either moves to the state its
    transition function gives or fails with the error it gives and changes
    nothing. `gov_laws.rs` proves what holds across operations (one vote per
    voter, vote weight equals balance, the pass rule, forward-only lifecycle,
    pausing, the two-step admin handover).
  - `token.rs` — the voting token: balances, allowances, mint and burn; the
    total supply stays the sum of all balances.
  - `marketplace.rs` — listings and offers with a per-listing cap on active
    offers; each listing's counter is its number of active offers.
  - `indexer.rs` — the in-memory indexer behind the REST API.
  - `poller.rs`, `decimal.rs` — the event poller's decisions (which events to
    store, where to resume, the poll interval) and decimal text.
- `tests/` — scenarios over the library's public API.
- `app/` — the services: the REST API (axum, rate-limited, OpenAPI) and the
  Horizon-to-Postgres event indexer. Run with no argument for the API, or with
  `indexer` for the indexer.

The contracts take the ledger time as a `now` argument and the voting token's
state as a `&TokenContract`; addresses are strkey strings.
