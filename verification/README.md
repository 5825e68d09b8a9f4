# bootleg_networking

Networking for Bevy games: native clients talk to a server over TCP (reliable
channels) and UDP (unreliable channels); browsers and servers talk over WebRTC
through naia.

`src/` is the verified core, checked with Verus:

- `frame` — the wire format of a native message (four bytes of big-endian
  payload length, one byte of channel id, the payload), its encoder and
  decoders, the WebRTC size limit, and the round-trip lemmas.
- `client` — the native client: channel registry, per-channel queues of
  received frames, the senders that reach the socket writer tasks, and the
  lemmas on queueing, draining and disconnecting.
- `ports` — the search for a free local port.
- `resource` — server/client role and setup state, and the decisions the
  resource makes around naia.
- `shared` — channel ids, connection ids and handles, error types.
- `crate_specs` — the types of dashmap, tokio, turbulence and bincode that the
  core holds, and the contracts of the calls it makes into them.

`app/` holds what runs around the core: the tokio socket tasks, bincode
(de)serialization of user messages, the naia side and the Bevy plugin.
