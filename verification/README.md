# silver_telegram

The core of a workflow-automation and assistant platform, written in Verus:
executable Rust whose behaviour is stated in `requires` / `ensures` contracts
and proved.

- `src/` — the verified library.
  - `support` — text helpers, the clock, ULID text, and a JSON value model.
  - `platform_core` — typed identifiers and the domain error kinds.
  - `workflow` — typed node graphs (on `petgraph`), the remaining-work graph
    that decides which nodes may run (and, in `work_history`, what any
    sequence of marks leaves ready or blocked), run state rebuilt from its
    event log, the orchestrator's and the worker's decisions, triggers,
    envelopes and NATS naming.
  - `platform_access`, `authz` — roles from identity-provider groups,
    sessions, OIDC configuration, and the SpiceDB requests.
  - `scheduler`, `integration`, `conversation`, `ai` — schedules and trigger
    records, rate limiting and connectors, conversation sessions and tools,
    LLM calls, prompt templates and feedback.
- `app/` — the runtime around it: serde wire formats, the NATS event and
  object stores, the asynchronous orchestrator and worker loops, the SpiceDB
  client, and the service traits.
- `tests/` — tests of the library's behaviour on concrete values.

Instants are milliseconds since the Unix epoch (`i64`); floating-point
settings are carried as their bit patterns.
