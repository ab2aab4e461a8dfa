# soulseek_protocol

Serialisation and deserialisation of the Soulseek protocol, verified with
Verus: the messages exchanged with the server, between peers, to set up peer
connections and on the distributed network, the buffers that frame them on a
connection, and the bookkeeping a client keeps about its peer connections.

## Layout

- `src/` is the verified library.
  - `frame.rs`: the wire format as specifications over byte sequences
    (little-endian integers, length-prefixed strings, counted lists), the
    byte reader and writers, and the lemmas that a written value reads back.
  - `server/`: server requests and responses, with the server connection
    buffer.
  - `peers/messages/`: peer connection messages, distributed messages and
    peer messages (transfers, shares, searches, user information), zlib
    compression of shares and search replies.
  - `peers/connection.rs`, `peer_connection.rs`: buffers that frame peer
    messages by the kind of their connection.
  - `peers/channels.rs`, `peers/handler.rs`, `peers/listener.rs`: the pool of
    peer connections and the decisions of connection handlers and of the
    listener.
  - `database/entities.rs`, `dump.rs`: stored peers and downloads, and the
    dump of captured client traffic.
- `tests/` exercises the library on concrete messages.
- `app/` holds the I/O around the library: TCP streams, the listener tasks,
  the sled database, walking shared directories, and the `slsk_dump`
  program that prints captured messages as JSON.

Verify with Verus on `src/lib.rs`; the outside crates used are `flate2`,
`md5`, `rand` and `hex` in the library, and `tokio`, `sled`, `serde` and
`serde_json` around it.
