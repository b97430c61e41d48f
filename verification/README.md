# ghost_actor

Actors over futures channels: handles that send events or closures to a
task which owns the state and applies them one at a time.

- `src/` is the verified library (Verus): the error type and its
  conversions, the shared run state of an actor (a lock whose predicate
  admits only state bytes), the actor control, the event traits and the
  provided `GhostSender`, the response callback, the queue of channels
  waiting to be taken in, and the decisions of the actor task loop as a
  state machine with its laws (graceful shutdown included). `src/outside.rs` holds the trusted items:
  declarations of the futures, must_future and tokio types, and the
  wrappers around their calls.
- `app/` is the asynchronous plumbing: the builder and channel factory and
  the task loop that performs what `ActorLoop` decides, the sends that wait
  on a channel (`GhostChannelSender`, `GhostControlSender`, the shutdown
  requests), whose outcomes the library's verified functions map, the closure-driven
  `GhostActor<T>` and its boxed form, mock handlers, and copies of the
  library's error types that carry `thiserror` derives.
- `tests/` exercises the library.
