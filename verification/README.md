# zeroclaw

Billing and agent-runtime logic of the ZeroClaw agent platform, verified with Verus.

## Layout

- `src/billing/` — the billing subsystem: payment providers and their factory, spending
  limits, usage tracking, the circuit breaker, prepaid balances, task metering, the
  batched cost display, user accounts, the lifecycle session that meters agent tasks,
  and the location of persisted balances. `laws.rs` states what holds across calls
  (admitted tasks are charged and stay within the daily cap, the breaker trips exactly at
  its threshold, recorded usage is read back, …).
- `src/agent/` — the decisions of the agent runtime: the tool security policy, tool
  routing and the orchestration loop (as step functions between LLM calls and tool
  runs), conversation selection and hygiene, history windows, memory recall, channel
  delivery, LLM reply handling, HTTP tool results, and the local worker's tools and CLI.
  `laws.rs` states policy and recall properties and the safety of URL encoding.
- `src/text.rs` — string building with exact contracts (decimal numbers, dollar amounts).
- `app/` — the programs around the library: the worker binary (environment, stdin,
  processes, files), the SpacetimeDB module (tables, reducers, procedures, HTTP), and the
  billing glue (serde copies of the library types, balance files, the locked observer,
  async providers).
- `tests/` — tests of the library.

Calls into outside code made by the library (`serde_json` for JSON string lists, `std`'s
lower-casing and `String::push`) go through small trusted wrappers; word and line
splitting are verified against their specifications.
