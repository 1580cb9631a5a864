# payment_core

The decision logic of a payment backend (cards, saldos, top-ups, merchants,
roles, authentication), verified with Verus, and the asynchronous code that
runs it.

- `src/` — the verified library.
  - `resilience/` — a circuit breaker, the gateway's half-open circuit
    breaker, the request limiter and the load monitor, as state machines over
    a clock reading passed in by the caller.
  - `service/` — for every service operation, the decisions it takes: the
    cache key, cache lifetime, answer message and error policy of a read
    (`flow::ReadPlan`, `flow::PageReadPlan`), the cache entries a command
    makes stale (`flow::CommandPlan`), and, for the operations that
    alternate several calls (registration, login, token refresh, top-ups),
    one function per decision point.
  - `repository/` — what the queries compute around the database: row
    windows of listings, the periods of the statistics (calendar arithmetic
    through `chrono`), and the repositories' own refusals.
  - `pagination.rs`, `text.rs`, `response.rs`, `errors.rs` — paging,
    numerals and masking, answer envelopes, errors.
- `app/` — locks and clock around the resilience state machines, an
  in-memory cache, and the loops that carry out the plans and steps of the
  library against repositories given as traits.
- `tests/` — tests of the library on concrete values.
