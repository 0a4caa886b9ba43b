# ra2a

An Agent2Agent (A2A) protocol library whose logic is verified with Verus.

- `src/` is the verified library: the protocol types and their views, the
  error model and its JSON-RPC mapping, the in-memory task and push
  configuration stores, the task manager, the request context and call
  context, and every decision of the request handler (how a message is
  bound to a task, when a non-streaming send returns, what a reply holds,
  which method a JSON-RPC request names, how a stream starts and ends).
  Calls into `uuid`, `chrono`, `serde_json` and std that Verus does not see
  stand behind the trusted items of `src/external.rs` and `src/error.rs`.
- `app/` is the unverified I/O around it: serde forms of the protocol
  types, async stores (one of them in SQLite), event queues on tokio
  channels, HTTP push delivery with reqwest, the async handler loop, call
  interceptors, and the axum routes for JSON-RPC, SSE and REST.
- `tests/` runs the library on concrete values.
