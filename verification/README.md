# protoo

A signaling framework: rooms made of peers that exchange requests, responses
and notifications over transports.

- `src/` is the verified library (Verus):
  - `error.rs`: the errors of transports, peers and rooms;
  - `json.rs`: the JSON documents messages travel in, read through serde_json;
  - `message.rs`: requests, responses, notifications and their wire format;
  - `peer.rs`: the state of a peer: pending requests, incoming events, shutdown;
  - `room.rs`: the registry of a room;
  - `utils.rs`: random numbers in a range, for request identifiers.
- `app/` drives the library with tokio: `Peer`, `Room`, `RequestContext`, the
  `Transport` trait, the serde serialization of messages and the `Display` of
  the errors.
- `tests/` exercise the library on concrete values.
