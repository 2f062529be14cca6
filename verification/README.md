# openfang

The core of the OpenFang agent system as a verified library, with the code that connects it to
the outside beside it.

- `src/` is the library. Every function in it carries a contract that Verus proves.
  - `a2a`: the agent-to-agent protocol: tasks and their wire forms, the task store, event
    streams, agent cards, requests and replies.
  - `auth`: users, roles, and who may do what.
  - `memory`: topics, sessions, extractions, the task queue, paired devices and key-value pairs,
    and the schema of the database with its migrations.
  - `dream`: the consolidation of a session into topics, and its persistence.
  - `text`, `json`, `record`, `order`, `ids`, `message`, `agent`, `error`: what these build on.
- `app/` talks HTTP, keeps the memory in SQLite, and asks the language and embedding models.
- `tests/` runs the library on concrete values.

Calls into `serde_json`, `chrono`, `uuid` and `dashmap` stand behind small functions in
`src/json.rs`, `src/memory/time.rs`, `src/ids.rs` and `src/auth/registry.rs`; a few functions of the
standard library get their contracts in `src/text.rs`, `src/auth/role.rs` and `src/a2a/sse.rs`.
These contracts are not proved; the comment above each says what it claims.
