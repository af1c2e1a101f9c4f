# slean

A small request/reply messaging layer over TCP. Every message travels as a
frame: an eight-byte little-endian descriptor (a four-bit type code for
request, reply or error, and a 21-bit body length) followed by the body.

The library under `src/` is verified with Verus:

- `protocol` — frame descriptors: building, validating, reading them.
- `memo` — `SleamBuf`, the message buffer with a read and a write cursor,
  committing frames, and the steps of copying to and from streams.
- `error` — the errors of the layer and how they are sent to a peer.
- `codec` — the `Codec` trait, the text codec (proved exact) and the
  MessagePack and bincode codecs (through `rmp-serde` and `bincode`).
- `service` — `OneReplyService`, which answers each request with one
  reply or error frame.
- `conn`, `repl` — the decisions of the server for a client connection.
- `req::block` — the client side: framing requests, reading replies.

`app/` holds what performs I/O: the `mio` event loop of the server, the
blocking TCP client, stream copying, and the displayable error type.
