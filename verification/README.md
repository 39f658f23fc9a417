# communicator

A chat-platform client library (Mattermost first) whose core is verified with
Verus, wrapped in a C interface.

- `src/` is the verified library: the platform-agnostic data model (users,
  channels, messages, teams, events), error codes and the last-error slot,
  contexts, the Mattermost wire types and their conversions, API endpoint
  paths, error mapping for failed replies, the sign-in and sign-out steps,
  the expiring caches, rate-limit retries, the WebSocket session state
  machine and event decoding, and the JSON layout of events. Every public
  function carries a contract; the laws that tie functions together are
  public proof functions named `law_*`.
- `tests/` runs the library on concrete values.
- `app/` is ordinary Rust around the library: HTTP with `reqwest`, the
  WebSocket with `tokio-tungstenite`, JSON with `serde`, the Tokio runtime,
  the `Platform` trait, and the exported C functions.
