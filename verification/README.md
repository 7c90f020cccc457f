# iroh_raft

The decision logic of a Raft cluster-management library, written in Verus
and proved against its contracts.

## Layout

- `src/` — the verified library.  Every type has a plain mathematical
  model (spec functions and views over `Seq`, `Map` and integers), and
  every public function states its result over that model.  Laws that
  relate several functions stand as public proof functions (`lemma_*`).
  - `config`, `management::config` — configuration values, builders,
    validation and environment overrides.
  - `management` — access control (`auth`, `protocol`), discovery cache,
    events and their history, HTTP handler answers, client routing.
  - `circuit_breaker`, `timeout_manager`, `backpressure`, `lock_free` —
    resilience and counting structures, driven by explicit timestamps.
  - `raft`, `node`, `storage` — the key-value state machine, proposals,
    message routing and log-storage rules.
  - `transport` — wire framing, message priorities and peer bookkeeping.
- `tests/` — executable tests of the library.
- `app/` — ordinary Rust around the library: the clock, the process
  environment, files, tokio channels and tasks, serde copies of library
  types, and the computations that need floating point.

Time never comes from inside a verified decision: functions that depend on
it take the current time as an argument (`*_at`), and a thin variant reads
the system clock and states what holds whatever time it read.

Calls into outside crates (`bincode`, `uuid`, `chrono`, `rand`, `dashmap`, `protobuf`,
`raft-proto`) stand behind small trusted wrappers whose doc comments say
what their contracts claim.
