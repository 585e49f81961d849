# fungi

Event logs, intent scoring and message transports of the Fungi protocol, as a library
whose behaviour is stated in contracts and proved by Verus.

## Layout

- `src/persist.rs`: the event log of a session, and what a state transition asks of it.
- `src/cost/`: blockspace prices, payoff curves, the queue of intents, coin selection
  requests, and the wallet state that realizing some intents would leave behind.
- `src/transport/`: the channel traits, and the adapters that split, pair, convert and
  share channels. `src/transport/laws.rs` holds what is true of them taken together.
- `src/rpc/`: what crosses a remote procedure call link and what each side makes of it,
  the client's channels and builders, and the decisions of a server.
- `src/testkit/`: in-memory links and mailboxes, and conformance checks.
- `app/`: everything that waits. The traits again with operations that can be awaited,
  the threads and streams of a bridge, the runners of the conformance checks, and an echo
  process.

An operation in `src/` goes step by step: a step either ends it, or says that it has to
wait and leaves something to go on from. A transport says what a step may do as a relation
between its states before and after it, and an adapter passes that relation on.
The bridge's two ends and the longer checks are state machines: an event goes in, an
action comes out, and `app/` performs it.

What is taken from other crates on trust stands in functions marked
`#[verifier::external_body]`, each with a comment that says what is claimed:
in `src/queues.rs`, `src/identity.rs`, `src/transport/error.rs`, `src/rpc/error.rs`,
`src/rpc/channel.rs`, `src/cost/blockspace.rs` and `src/cost/simulate.rs`.
