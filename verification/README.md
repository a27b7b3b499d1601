# penelope

Deterministic, replayable saga decisions for long-running workflows that must
survive crashes, retries, duplicate delivery and uncertain external results.
The decision logic, the typed identities and the port contracts are written in
Verus and proved against their specifications.

## Layout

- `src/` — the verified library.
  - `ids` — prefixed identifiers (a type invariant keeps each canonical),
    content digests, logical time and the length-prefixed identifier encoding.
  - `digest` — SHA-256 of canonical bytes, computed by the `sha2` crate.
  - `domain` — process scopes, inputs, outcomes, actions, effect keys,
    definitions, migrations, canonical commands and events, manual reviews.
  - `engine` — the linear saga: start, decide, results, retries and timers,
    LIFO compensation, manual resolution and ordered replay.
  - `graph` — the bounded graph saga with per-step visit limits.
  - `commit`, `outbox`, `timers`, `receipts`, `reconciliation`, `review` —
    the contracts that durable adapters are held to: atomic commits, replay
    pages, the append-only outcome log, leases, receipts, reconciliation
    windows, manual review and authorization.
  - `statechronicle` — exact correlation of committed canonical events with
    the commands that produced them.
- `tests/` — executable tests against the compiled library.
- `app/` — what needs outside derives or async code: error types with
  `std::error::Error`, JSON wire forms and canonical wire bytes, the inbound
  process-input parser and the asynchronous port traits.
