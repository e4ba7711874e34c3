# postgres-replication

Parsers for the messages of PostgreSQL's streaming replication protocol, in Rust
verified with Verus. Every parser has a contract that fixes its result for every
input: which message comes out, or which error.

- `src/protocol.rs` and `src/protocol/`: the message types and their parsers.
- `src/model.rs` and `src/wire.rs`: the models that contracts speak of, and the
  wire format as mathematical functions.
- `src/buffer.rs`, `src/text.rs`, `src/tags.rs` and `src/error.rs`: the cursor that
  reads bytes, names as text, the tags, and the errors.
- `src/laws.rs`: what holds of the protocol as a whole, such as that a message
  that was written is read back, and that one that is cut off is refused.
- `src/message_lemmas.rs` and `src/wire_lemmas.rs`: the proofs behind the laws.
- `src/trusted.rs`: what is taken on trust of `bytes`, of `memchr` and of the
  standard library.
- `app/`: the parsers over `std::io::Result` and a shared `Cell<bool>`.

`LogicalReplicationMessage::parse` asks that no list announces a negative number
of entries. `LogicalReplicationMessage::try_parse` takes any input, and gives
`None` on such a list.
