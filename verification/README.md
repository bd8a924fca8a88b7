# rtmp_session

The server side of an RTMP connection: handshake, commands, publishing and
playing, as a state machine whose every step is proved to keep to its contract.

- `src/session.rs` holds the session. It is asked what to do next and is told
  what came of it; it sends media and events into `tokio` channels itself.
- `src/protocol.rs` holds the vocabulary of that dialogue, and `src/amf0.rs`,
  `src/messages.rs`, `src/chunk.rs`, `src/channels.rs`, `src/settings.rs` and
  `src/errors.rs` the values that it speaks of.
- `src/model.rs` states what a session does.
- `src/laws.rs` states and proves what holds of a session as a whole.
- `src/buffer.rs` and `src/channels.rs` hold what is taken on trust of `bytes`
  and `tokio`.
- `app/` drives a session over a connection. Socket and codecs come in through
  its `Connection` trait.
