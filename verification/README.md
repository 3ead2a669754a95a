# ruxe

Redux-inspired state management, verified with Verus.

A `Store` dispatches events through an onion of middlewares to a reducer,
which updates the state in place and may emit side events; the store
re-dispatches those in FIFO order, one level deeper each time, up to a
maximum depth. Slice reducers, each confined to one slice of the state,
compose into a root reducer that runs them one after the other
(`SequentialRootReducer`) or side by side on Rayon workers
(`ParallelRootReducer`). An actor loop owns a store and serializes the
events that `DispatchHandle`s push through a bounded `futures` channel.

## Layout

- `src/`: the library, verified.
  - `store.rs`: the store, the mathematical model of a dispatch
    (`spec_chain`, `spec_run`, `spec_dispatch`) and the laws on it.
  - `middleware.rs`, `reducer.rs`, `state.rs`: the traits that users
    implement, with the specifications their implementations may state.
  - `sequential_root_reducer.rs`, `parallel_root_reducer.rs`, `hlist.rs`,
    `indices.rs`: composition of slice reducers.
  - `actor.rs`: dispatch handles, the actor loop's per-event step, and the
    calls into `futures::channel::mpsc`.
  - `watch.rs`: the decisions of the state-publication channel.
- `app/`: the async edge, not verified: awaiting channel capacity and
  incoming events, and the lock-based `watch` channel.
- `tests/`: executable tests of the library.
