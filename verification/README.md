# container-agent-dev

The device side of Container Dev Mode, as a verified decision core with a thin process around it.

The agent holds a control WebSocket open to the host, serves a loopback registry from which the
device's container engine pulls, and syncs a container when the host announces an image. Every
decision that it takes on the way is a function or a state machine in `src/`, with its contract
proved by Verus; the process in `app/` performs what they ask for and hands back what came of it.

| Path | What it is |
|---|---|
| `src/sync.rs` | the sync: pull, tag, restart, probe, record, point |
| `src/session.rs` | dialling the control WebSocket and serving its session |
| `src/run.rs`, `src/backoff.rs` | reconnecting, and the end of the process |
| `src/proxy.rs`, `src/fetch.rs` | what the engine is told, and what the host is asked |
| `src/serve.rs`, `src/idle.rs` | when the listener gives up, and when a body has stalled |
| `src/tls.rs`, `src/dial.rs` | trust in the bootstrap's CA alone, and the stages of a connection |
| `src/engine.rs` | which engine is run, and how it is called |
| `src/wire.rs`, `src/json.rs` | the frames and their JSON text |
| `src/settings.rs`, `src/bootstrap.rs`, `src/state.rs` | settings, session material, carried state |
| `src/headers.rs`, `src/text.rs`, `src/span.rs` | HTTP fields, texts, lengths of time |
| `tests/` | tests of the library as it is compiled |
| `app/` | the process: sockets, child processes, files, the environment |
