# oshima

A runtime-agnostic actor framework, verified with Verus.

Actors implement the traits in `src/traits.rs` once; a backend carries their
messages: a thread per actor (`src/sync_backend`, over `std::sync::mpsc`) or
a Tokio task per actor (`src/tokio_backend`, over `tokio::sync`).

- `src/lifecycle.rs` is the run loop of an actor as a state machine from
  event to next action, with the lifecycle laws, proved of the actions the
  loop asks for (not of calls on the actor, whose hooks are user code with no
  contract): `started` comes
  first and once, `stopped` comes only right after a `stopping` call that
  agreed to stop, a veto keeps the actor taking messages on a fresh context,
  and the loop never refuses the answer to its own request.
- `src/dispatch.rs` and the backends' `perform`, `prepare_receive` and
  `deliver` carry out each action and report the event that answers it; a
  received message is stated to be delivered to the actor as its handler
  says (`EnvelopeProxy::delivers`), and the context handed to `stopping`
  after the mailbox closed is stated to be marked (`prepare_stopping`).
- `src/error.rs` states how channel outcomes become a `SendError`.
- `src/envelope.rs` and `src/tokio_backend/addr.rs` hold the type-erased
  envelopes a mailbox carries.
- `src/std_channel.rs` and `src/tokio_backend/channel.rs` hold the trusted
  wrappers around the channel calls.
- `app/` spawns the threads and tasks, runs the loop the state machine
  decides, and offers the `async` sends of the Tokio backend.
