# prism_mcp_rs

A Model Context Protocol (MCP) SDK whose protocol logic is verified with
Verus.

- `src/` is the verified library: JSON-RPC message shapes and decoding,
  the JSON documents that carry messages and handler results (with the law
  that a written message reads back), argument completion, the server's
  registries, lifecycle, routing and request handlers, HTTP
  routing and header checks, the standard-I/O session (subscriptions,
  cancellation, fan-out), SSE decoding, subscription filters, endpoint
  failover, task bookkeeping, streaming decisions and buffers, and the
  mapping between errors and JSON-RPC error replies. Calls into `serde_json`,
  `reqwest`, `flate2`, `brotli`, `zstd`, `chrono` and `uuid` stand behind
  small trusted wrappers in `wire.rs`, `streaming.rs`, `tasks.rs` and
  `buffers.rs`, each with the contract it is trusted for.
- `app/` is the I/O around it: the HTTP client and server (reqwest, axum,
  rustls for mutual TLS), HTTP/2 over h2, WebSocket, the standard-I/O
  client and server loops, the server runtime that runs host functions,
  the task runner, endpoint failover over real transports, conversion to
  and from `serde_json`, telemetry setup, and the few measurements kept in
  floating point.
- `tests/` exercises the library on concrete values.
