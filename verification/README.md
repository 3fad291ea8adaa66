# ws_transport

A byte-stream transport over WebSocket connections, verified with Verus.

- `src/read_buffer.rs` — the read buffer that turns received binary messages
  back into a byte stream, with the laws that no byte is lost, duplicated or
  reordered and that no read exceeds its room.
- `src/channel.rs` — the stream object: reads from the channel of received
  payloads, writes as one message each over a sender that records what the
  channel took, flush and close.
- `src/sender.rs` — the sending end of a channel, with the ghost record of
  the messages the channel took; only its constructor and `send` change it.
- `src/relay.rs` — the rules of the two tasks between the WebSocket and the
  byte stream, with the laws that the receiving task forwards exactly the
  binary payloads before the first close and that the sending task sends the
  writes in order, one binary message each, stopping at the first failure.
- `src/endpoint.rs` — dial URLs, TLS names, peer endpoints, the decisions of
  the accept loop and the transport's errors.
- `app/` — the asynchronous plumbing (tokio and async-std): sockets, TLS,
  handshakes, spawned tasks, and the `AsyncRead`/`AsyncWrite` impls.
