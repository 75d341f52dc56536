# vetomint

The consensus state machine of one height, with its contracts proved by Verus,
and the hashing that commits blocks, agendas and transactions.

- `src/types.rs`: heights, events, responses, steps.
- `src/tally.rs`: voting power counted per proposal, in proposal order.
- `src/state.rs`: the state of a height and its value model.
- `src/model.rs`: what each event does, as functions on values.
- `src/progress.rs`: the state machine; `progress` is proved to follow `model.rs`.
- `src/laws.rs`: properties that hold for every state and event.
- `src/hash.rs`, `src/merkle.rs`, `src/block.rs`: hashes, Merkle roots, and
  the hashes of agendas and blocks over encoded items.
- `app/`: the serializable values and their JSON encoding, handed to the
  library as bytes.
