# escrow

A verified escrow for machine-to-machine payments: agents record usage of paid
services, admins and service owners settle it against per-service prices, and
the contract keeps prepaid credit, lifetime counters, rate windows, access
lists and disputes. Every entrypoint is proved against a contract stated over a
mathematical model of the whole state.

## Layout

- `src/` — the library, verified with Verus.
  - `table.rs` — an association table (vector of entries with distinct keys)
    viewed as a `Map`.
  - `types.rs`, `error.rs`, `events.rs` — addresses, symbols, records, the
    error codes and the published events with their topic symbols.
  - `env.rs` — the host as the contract sees it: ledger clock, the call's
    authorizations, the event log.
  - `billing.rs`, `rate_limit.rs` — saturating billing arithmetic, volume
    price schedules, the fixed-window rate limiter.
  - `model.rs` — `EscrowView`, the state as maps and sequences, and for each
    entrypoint the refusal it answers and the state it leaves.
  - `escrow.rs` — the `Escrow` and its entrypoints, each proved against
    `model.rs`.
  - `laws.rs` — properties that span entrypoints (idempotence, handover,
    settlement draining, dispute refunds, snapshot coherence, ...).
  - `helpers.rs` — service names `svc_<n>` and one-call rate-limit setup.
- `tests/` — the contract's scenarios and the library's own tests.
- `app/` — the Soroban side: host addresses and symbols, ledger time,
  signatures, contract error codes and event relaying.
