//! Event-driven state container. The [`Store`] owns the state, the reducer
//! and the middlewares, and exposes [`Store::dispatch`] as the only way to
//! evolve the state.

use crate::middleware::{Flow, FlowSpec, Middleware};
use crate::reducer::{events_or_empty, events_view, Reducer, ReducerOutput};
use std::collections::VecDeque;
use vstd::prelude::*;

verus! {

/// Errors returned by [`Store::dispatch`].
#[derive(Debug, Clone, Copy, PartialEq, Eq, Structural)]
pub enum DispatchError {
    /// Side-event recursion exceeded `max_depth`.
    MaxDepthExceeded { depth: usize, max: usize },
}

/// An event waiting in the store's queue.
struct PendingEvent<E> {
    event: E,
    /// Re-dispatch depth (0 = the dispatched event itself).
    depth: usize,
}

/// A reducer seen through its event type as a parameter, so that the store
/// can hold any reducer behind one trait object.
pub trait DynReducer<S, E> {
    spec fn spec_dyn_reduce(&self, state: S, event: E) -> (S, Option<Seq<E>>);

    spec fn spec_dyn_obeys(&self) -> bool;

    fn dyn_reduce(&self, state: &mut S, event: &E) -> (output: ReducerOutput<E>)
        ensures
            self.spec_dyn_obeys() ==> (*final(state), events_view(output))
                == self.spec_dyn_reduce(*old(state), *event),
    ;
}

impl<S, R: Reducer<S>> DynReducer<S, R::Event> for R {
    open spec fn spec_dyn_reduce(&self, state: S, event: R::Event) -> (S, Option<Seq<R::Event>>) {
        self.spec_reduce(state, event)
    }

    open spec fn spec_dyn_obeys(&self) -> bool {
        self.spec_obeys_reduce()
    }

    fn dyn_reduce(&self, state: &mut S, event: &R::Event) -> (output: ReducerOutput<R::Event>) {
        self.reduce(state, event)
    }
}

/// The state and side events of one pass through the middlewares `mws`
/// (outermost first) and the reducer step `reduce`.
///
/// A middleware that skips leaves the state as it was and its own side
/// events are the result; one that passes an event on lets the inner chain
/// run on it, then turns the inner side events into the result.
pub open spec fn onion<S, E>(
    mws: Seq<Box<dyn Middleware<S, E>>>,
    reduce: spec_fn(S, E) -> (S, Option<Seq<E>>),
    state: S,
    event: E,
) -> (S, Option<Seq<E>>)
    decreases mws.len(),
{
    if mws.len() == 0 {
        reduce(state, event)
    } else {
        match mws[0].spec_before(state, event) {
            FlowSpec::Skip(output) => (state, output),
            FlowSpec::Next(inner_event) => {
                let inner = onion(mws.drop_first(), reduce, state, inner_event);
                (inner.0, mws[0].spec_after(inner.0, inner.1))
            },
        }
    }
}

/// Every middleware of `mws` is described by its specification.
pub open spec fn middlewares_obey<S, E>(mws: Seq<Box<dyn Middleware<S, E>>>) -> bool {
    forall|i: int| 0 <= i < mws.len() ==> #[trigger] mws[i].spec_obeys_middleware()
}

/// The queue entries for `events`, all at re-dispatch depth `depth`.
pub open spec fn pending_at<E>(events: Seq<E>, depth: nat) -> Seq<(E, nat)> {
    events.map_values(|event: E| (event, depth))
}

/// Every queue entry is at a depth no greater than `max`.
pub open spec fn depths_within<E>(queue: Seq<(E, nat)>, max: nat) -> bool {
    forall|i: int| 0 <= i < queue.len() ==> #[trigger] queue[i].1 <= max
}

/// The weight of a queue entry `levels` depths below the maximum depth.
///
/// Handling one entry replaces it by fewer than `WEIGHT_BASE` entries one
/// level deeper, which weigh less in total: the sum of the weights of a
/// queue decreases at each step of a dispatch.
pub closed spec fn weight(levels: nat) -> nat
    decreases levels,
{
    if levels == 0 {
        1
    } else {
        weight_base() * weight((levels - 1) as nat)
    }
}

/// One more than the most events a `Vec` can hold.
pub closed spec fn weight_base() -> nat {
    usize::MAX as nat + 1
}

/// The sum of the weights of the entries of `queue`.
pub closed spec fn queue_weight<E>(queue: Seq<(E, nat)>, max: nat) -> nat
    decreases queue.len(),
{
    if queue.len() == 0 {
        0
    } else {
        weight((max - queue[0].1) as nat) + queue_weight(queue.drop_first(), max)
    }
}

/// Every entry weighs at least 1.
pub proof fn lemma_weight_positive(levels: nat)
    ensures
        weight(levels) >= 1,
    decreases levels,
{
    if levels > 0 {
        lemma_weight_positive((levels - 1) as nat);
        let w = weight((levels - 1) as nat);
        assert(weight_base() * w >= w) by (nonlinear_arith)
            requires
                weight_base() >= 1,
                w >= 1,
        ;
    }
}

/// The weight of two queues one after the other is the sum of their
/// weights.
pub proof fn lemma_queue_weight_append<E>(a: Seq<(E, nat)>, b: Seq<(E, nat)>, max: nat)
    ensures
        queue_weight(a + b, max) == queue_weight(a, max) + queue_weight(b, max),
    decreases a.len(),
{
    if a.len() > 0 {
        assert((a + b).drop_first() =~= a.drop_first() + b);
        lemma_queue_weight_append(a.drop_first(), b, max);
    } else {
        assert(a + b =~= b);
    }
}

/// Entries all at one depth weigh their number times the weight of that
/// depth.
pub proof fn lemma_queue_weight_pending<E>(events: Seq<E>, depth: nat, max: nat)
    ensures
        queue_weight(pending_at(events, depth), max) == events.len() * weight(
            (max - depth) as nat,
        ),
    decreases events.len(),
{
    let w = weight((max - depth) as nat);
    if events.len() > 0 {
        assert(pending_at(events, depth).drop_first() =~= pending_at(events.drop_first(), depth));
        lemma_queue_weight_pending(events.drop_first(), depth, max);
        let p = pending_at(events, depth);
        assert(p[0].1 == depth);
        assert(queue_weight(p, max) == w + queue_weight(p.drop_first(), max));
        let n = events.drop_first().len();
        let len = events.len();
        assert(len * w == w + n * w) by (nonlinear_arith)
            requires
                len == n + 1,
        ;
    } else {
        assert(pending_at(events, depth) =~= Seq::<(E, nat)>::empty());
        let len = events.len();
        assert(len * w == 0) by (nonlinear_arith)
            requires
                len == 0,
        ;
    }
}

/// Handling the first queue entry, at a depth below `max`, and queueing its
/// side events makes the queue lighter.
pub proof fn lemma_step_lighter<E>(queue: Seq<(E, nat)>, events: Seq<E>, max: nat)
    requires
        queue.len() > 0,
        queue[0].1 < max,
        events.len() <= usize::MAX,
    ensures
        queue_weight(queue.drop_first() + pending_at(events, (queue[0].1 + 1) as nat), max)
            < queue_weight(queue, max),
{
    let depth = queue[0].1;
    lemma_queue_weight_append(queue.drop_first(), pending_at(events, (depth + 1) as nat), max);
    lemma_queue_weight_pending(events, (depth + 1) as nat, max);
    let below = weight((max - (depth + 1)) as nat);
    let n = events.len();
    assert(weight((max - depth) as nat) == weight_base() * below);
    lemma_weight_positive((max - (depth + 1)) as nat);
    assert(n * below < weight_base() * below) by (nonlinear_arith)
        requires
            n < weight_base(),
            below >= 1,
    ;
}

/// Dropping the first queue entry makes the queue lighter.
pub proof fn lemma_drop_lighter<E>(queue: Seq<(E, nat)>, max: nat)
    requires
        queue.len() > 0,
    ensures
        queue_weight(queue.drop_first(), max) < queue_weight(queue, max),
{
    lemma_weight_positive((max - queue[0].1) as nat);
}

/// The reducer and the middlewares of a store.
#[verifier::reject_recursive_types(S)]
#[verifier::reject_recursive_types(E)]
struct Pipeline<S, E> {
    reducer: Box<dyn DynReducer<S, E>>,
    middlewares: Vec<Box<dyn Middleware<S, E>>>,
}

impl<S, E> Pipeline<S, E> {
    closed spec fn spec_reduce_step(&self) -> spec_fn(S, E) -> (S, Option<Seq<E>>) {
        |state: S, event: E| self.reducer.spec_dyn_reduce(state, event)
    }

    closed spec fn spec_obeys(&self) -> bool {
        self.reducer.spec_dyn_obeys() && middlewares_obey(self.middlewares@)
    }

    /// Runs `event` through the middlewares from `index` on, then the
    /// reducer.
    fn run_chain(&self, index: usize, state: &mut S, event: E) -> (output: ReducerOutput<E>)
        requires
            index <= self.middlewares@.len(),
        ensures
            self.spec_obeys() ==> (*final(state), events_view(output)) == onion(
                self.middlewares@.skip(index as int),
                self.spec_reduce_step(),
                *old(state),
                event,
            ),
        decreases self.middlewares@.len() - index,
    {
        if index == self.middlewares.len() {
            proof {
                assert(self.middlewares@.skip(index as int) =~= Seq::<
                    Box<dyn Middleware<S, E>>,
                >::empty());
            }
            self.reducer.dyn_reduce(state, &event)
        } else {
            let middleware = &self.middlewares[index];
            proof {
                assert(self.middlewares@.skip(index as int).drop_first() =~= self.middlewares@.skip(
                    index + 1,
                ));
                assert(self.middlewares@.skip(index as int)[0] == self.middlewares@[index as int]);
                if self.spec_obeys() {
                    assert(self.middlewares@[index as int].spec_obeys_middleware());
                }
            }
            match middleware.before(state, event) {
                Flow::Skip(output) => output,
                Flow::Next(inner_event) => {
                    let inner = self.run_chain(index + 1, state, inner_event);
                    middleware.after(state, inner)
                },
            }
        }
    }
}

/// A typed state container that dispatches events through a middleware
/// chain and a reducer.
///
/// State changes only via [`dispatch`](Store::dispatch). The reducer is the
/// sole producer of new state; middlewares observe, replace events, or
/// short-circuit the flow.
#[verifier::reject_recursive_types(S)]
#[verifier::reject_recursive_types(E)]
pub struct Store<S, E> {
    state: S,
    queue: VecDeque<PendingEvent<E>>,
    pipeline: Pipeline<S, E>,
    max_depth: usize,
}

impl<S, E> Store<S, E> {
    /// The store is well formed: every queued event is at a depth no
    /// greater than the maximum depth. `new` establishes it and `dispatch`
    /// keeps it.
    pub closed spec fn wf(&self) -> bool {
        depths_within(self.spec_queue(), self.spec_max_depth())
    }

    /// The current state.
    pub closed spec fn spec_state(&self) -> S {
        self.state
    }

    /// The events waiting to be dispatched, with their depths, oldest first.
    /// Empty but after a dispatch that failed.
    pub closed spec fn spec_queue(&self) -> Seq<(E, nat)> {
        self.queue@.map_values(|p: PendingEvent<E>| (p.event, p.depth as nat))
    }

    /// The bound on the side-event re-dispatch depth.
    pub closed spec fn spec_max_depth(&self) -> nat {
        self.max_depth as nat
    }

    /// The middlewares, outermost first.
    pub closed spec fn spec_middlewares(&self) -> Seq<Box<dyn Middleware<S, E>>> {
        self.pipeline.middlewares@
    }

    /// What the reducer makes of a state and an event.
    pub closed spec fn spec_reduce_step(&self) -> spec_fn(S, E) -> (S, Option<Seq<E>>) {
        self.pipeline.spec_reduce_step()
    }

    /// Whether the reducer is described by `spec_reduce_step` and every
    /// middleware by its specification.
    pub closed spec fn spec_obeys(&self) -> bool {
        self.pipeline.spec_obeys()
    }

    /// The reducer, the middlewares and the depth bound of both stores are
    /// the same.
    pub open spec fn spec_same_pipeline(&self, other: Self) -> bool {
        &&& self.spec_middlewares() == other.spec_middlewares()
        &&& self.spec_reduce_step() == other.spec_reduce_step()
        &&& self.spec_obeys() == other.spec_obeys()
        &&& self.spec_max_depth() == other.spec_max_depth()
    }

    /// The state and side events of one pass through the chain.
    pub open spec fn spec_chain(&self, state: S, event: E) -> (S, Option<Seq<E>>) {
        onion(self.spec_middlewares(), self.spec_reduce_step(), state, event)
    }

    /// The outcome of dispatching the queue entries in order from `state`:
    /// the final state, the entries left over, and the result.
    ///
    /// The first entry goes through the chain; its side events, if any (an
    /// empty list is none), are
    /// queued at the back one level deeper, unless the entry is at the
    /// maximum depth, which fails with `MaxDepthExceeded` and stops.
    pub open spec fn spec_run(&self, state: S, queue: Seq<(E, nat)>) -> (
        S,
        Seq<(E, nat)>,
        Result<(), DispatchError>,
    )
        decreases queue_weight(queue, self.spec_max_depth()),
    {
        if queue.len() == 0 {
            (state, queue, Ok(()))
        } else {
            let (event, depth) = queue[0];
            let step = self.spec_chain(state, event);
            let events = events_or_empty(step.1);
            if events.len() == 0 {
                proof {
                    lemma_drop_lighter(queue, self.spec_max_depth());
                }
                self.spec_run(step.0, queue.drop_first())
            } else if depth >= self.spec_max_depth() {
                (
                    step.0,
                    queue.drop_first(),
                    Err(
                        DispatchError::MaxDepthExceeded {
                            depth: depth as usize,
                            max: self.spec_max_depth() as usize,
                        },
                    ),
                )
            } else if events.len() > usize::MAX {
                // A `Vec` never holds that many events.
                (step.0, Seq::empty(), Ok(()))
            } else {
                proof {
                    lemma_step_lighter(queue, events, self.spec_max_depth());
                }
                self.spec_run(step.0, queue.drop_first() + pending_at(events, (depth + 1) as nat))
            }
        }
    }

    /// The outcome of dispatching `event` from `state`, with the entries
    /// `queue` waiting: the final state, the queue left over, and the result.
    ///
    /// The event goes through the chain at depth 0; its side events are
    /// queued at depth 1 behind the entries already queued, and the queue is
    /// run. With a maximum depth of 0, side events (a non-empty list) fail
    /// the dispatch.
    pub open spec fn spec_dispatch_from(&self, state: S, queue: Seq<(E, nat)>, event: E) -> (
        S,
        Seq<(E, nat)>,
        Result<(), DispatchError>,
    ) {
        let step = self.spec_chain(state, event);
        let events = events_or_empty(step.1);
        if events.len() == 0 {
            self.spec_run(step.0, queue)
        } else if self.spec_max_depth() == 0 {
            (step.0, queue, Err(DispatchError::MaxDepthExceeded { depth: 0, max: 0 }))
        } else {
            self.spec_run(step.0, queue + pending_at(events, 1))
        }
    }

    /// The outcome of [`dispatch`](Store::dispatch)ing `event`: the final
    /// state, the queue left over, and the result.
    pub open spec fn spec_dispatch(&self, event: E) -> (S, Seq<(E, nat)>, Result<(), DispatchError>) {
        self.spec_dispatch_from(self.spec_state(), self.spec_queue(), event)
    }

    /// The outcome of dispatching `events` one after the other, in order,
    /// from `state` with the entries `queue` waiting, stopping at the first
    /// dispatch that fails: the final state, the queue left over, and the
    /// result of the last dispatch made.
    pub open spec fn spec_dispatch_all(&self, state: S, queue: Seq<(E, nat)>, events: Seq<E>) -> (
        S,
        Seq<(E, nat)>,
        Result<(), DispatchError>,
    )
        decreases events.len(),
    {
        if events.len() == 0 {
            (state, queue, Ok(()))
        } else {
            let before = self.spec_dispatch_all(state, queue, events.drop_last());
            if before.2 is Err {
                before
            } else {
                self.spec_dispatch_from(before.0, before.1, events.last())
            }
        }
    }

    /// Builds a store from an initial state, a reducer, and an ordered list
    /// of middlewares (see [`Middleware`] for the composition order).
    ///
    /// `max_depth` bounds the side-event re-dispatch depth (the dispatched event
    /// is depth 0). An event at depth `max_depth` may run but cannot emit
    /// further side events.
    pub fn new<R>(
        state: S,
        reducer: R,
        middlewares: Vec<Box<dyn Middleware<S, E>>>,
        max_depth: usize,
    ) -> (store: Self) where R: Reducer<S, Event = E> + 'static, S: 'static, E: 'static
        ensures
            store.wf(),
            store.spec_state() == state,
            store.spec_queue() == Seq::<(E, nat)>::empty(),
            store.spec_max_depth() == max_depth,
            store.spec_middlewares() == middlewares@,
            store.spec_obeys() == (reducer.spec_obeys_reduce() && middlewares_obey(middlewares@)),
            forall|s: S, e: E| #[trigger]
                (store.spec_reduce_step())(s, e) == reducer.spec_reduce(s, e),
    {
        let store = Store {
            state,
            queue: VecDeque::new(),
            pipeline: Pipeline { reducer: Box::new(reducer), middlewares },
            max_depth,
        };
        assert(store.queue@.map_values(|p: PendingEvent<E>| (p.event, p.depth as nat))
            =~= Seq::<(E, nat)>::empty());
        assert forall|s: S, e: E| #[trigger]
            (store.spec_reduce_step())(s, e) == reducer.spec_reduce(s, e) by {
            assert(store.pipeline.reducer.spec_dyn_reduce(s, e) == reducer.spec_reduce(s, e));
        }
        store
    }

    /// Dispatches an event through the chain. Side events are re-dispatched
    /// in FIFO order; errors with [`DispatchError::MaxDepthExceeded`] when
    /// recursion exceeds `max_depth`.
    pub fn dispatch(&mut self, event: E) -> (result: Result<(), DispatchError>)
        requires
            old(self).wf(),
        ensures
            final(self).wf(),
            final(self).spec_same_pipeline(*old(self)),
            old(self).spec_obeys() ==> (final(self).spec_state(), final(self).spec_queue(), result)
                == old(self).spec_dispatch(event),
            result is Ok ==> final(self).spec_queue().len() == 0,
            result matches Err(DispatchError::MaxDepthExceeded { depth, max }) ==> depth
                == old(self).spec_max_depth() && max == old(self).spec_max_depth(),
    {
        let ghost orig = *self;
        let events = self.pipeline.run_chain(0, &mut self.state, event);
        proof {
            assert(self.pipeline.middlewares@.skip(0) =~= self.pipeline.middlewares@);
        }
        match self.queue_side_events(events, 0) {
            Ok(()) => {},
            Err(err) => {
                return Err(err);
            },
        }
        loop
            invariant
                orig == *old(self),
                self.spec_same_pipeline(orig),
                depths_within(self.spec_queue(), self.spec_max_depth()),
                orig.spec_obeys() ==> orig.spec_run(self.spec_state(), self.spec_queue())
                    == orig.spec_dispatch(event),
            decreases queue_weight(self.spec_queue(), self.spec_max_depth()),
        {
            let ghost state_before = self.spec_state();
            let ghost queue_before = self.spec_queue();
            let ghost max = self.spec_max_depth();
            match self.queue.pop_front() {
                None => {
                    return Ok(());
                },
                Some(pending) => {
                    proof {
                        assert(queue_before[0] == (pending.event, pending.depth as nat));
                        assert(self.spec_queue() =~= queue_before.drop_first());
                        assert(pending.depth <= max);
                        assert(depths_within(self.spec_queue(), max));
                    }
                    let result = self.internal_dispatch(pending);
                    proof {
                        if result is Ok {
                            if self.spec_queue() == queue_before.drop_first() {
                                lemma_drop_lighter(queue_before, max);
                            } else {
                                let list = choose|list: Seq<E>|
                                    list.len() <= usize::MAX && self.spec_queue()
                                        == queue_before.drop_first() + pending_at(
                                        list,
                                        (pending.depth + 1) as nat,
                                    );
                                lemma_step_lighter(queue_before, list, max);
                            }
                        }
                    }
                    match result {
                        Ok(()) => {},
                        Err(err) => {
                            return Err(err);
                        },
                    }
                },
            }
        }
    }

    /// Returns a reference to the current state.
    pub fn state(&self) -> (state: &S)
        ensures
            *state == self.spec_state(),
    {
        &self.state
    }

    /// Queues `events`, if any (an empty list is none), one level below
    /// `current_depth`; fails instead when `current_depth` has reached the
    /// maximum depth.
    fn queue_side_events(&mut self, events: ReducerOutput<E>, current_depth: usize) -> (result:
        Result<(), DispatchError>)
        requires
            current_depth <= old(self).max_depth,
        ensures
            final(self).spec_same_pipeline(*old(self)),
            final(self).state == old(self).state,
            depths_within(old(self).spec_queue(), old(self).spec_max_depth()) ==> depths_within(
                final(self).spec_queue(),
                final(self).spec_max_depth(),
            ),
            ({
                let list = events_or_empty(events_view(events));
                if list.len() == 0 {
                    result is Ok && final(self).spec_queue() == old(self).spec_queue()
                } else if current_depth >= old(self).max_depth {
                    &&& result == Err::<(), DispatchError>(
                        DispatchError::MaxDepthExceeded {
                            depth: current_depth,
                            max: old(self).max_depth,
                        },
                    )
                    &&& final(self).spec_queue() == old(self).spec_queue()
                } else {
                    &&& result is Ok
                    &&& list.len() <= usize::MAX
                    &&& final(self).spec_queue() == old(self).spec_queue() + pending_at(
                        list,
                        (current_depth + 1) as nat,
                    )
                }
            }),
    {
        match events {
            None => Ok(()),
            Some(list) => {
                if list.len() == 0 {
                    return Ok(());
                }
                if current_depth >= self.max_depth {
                    return Err(
                        DispatchError::MaxDepthExceeded {
                            depth: current_depth,
                            max: self.max_depth,
                        },
                    );
                }
                let ghost old_queue = self.spec_queue();
                let ghost all = list@;
                let _len: usize = list.len();  // a `Vec` holds at most `usize::MAX` events
                let depth = current_depth + 1;
                for event in iter: list
                    invariant
                        self.spec_same_pipeline(*old(self)),
                        self.state == old(self).state,
                        iter.seq() == all,
                        self.spec_queue() == old_queue + pending_at(
                            all.take(iter.index() as int),
                            depth as nat,
                        ),
                {
                    let ghost prev = self.spec_queue();
                    let ghost done = all.take(iter.index() as int);
                    proof {
                        assert(all.take(iter.index() + 1) =~= done.push(event));
                        assert(pending_at(done.push(event), depth as nat) =~= pending_at(
                            done,
                            depth as nat,
                        ).push((event, depth as nat)));
                    }
                    self.queue.push_back(PendingEvent { event, depth });
                    proof {
                        assert(self.spec_queue() =~= prev.push((event, depth as nat)));
                    }
                }
                proof {
                    assert(all.take(all.len() as int) =~= all);
                }
                Ok(())
            },
        }
    }

    /// Dispatches one queued event and queues its side events.
    fn internal_dispatch(&mut self, pending_event: PendingEvent<E>) -> (result: Result<
        (),
        DispatchError,
    >)
        requires
            pending_event.depth <= old(self).max_depth,
        ensures
            final(self).spec_same_pipeline(*old(self)),
            depths_within(old(self).spec_queue(), old(self).spec_max_depth()) ==> depths_within(
                final(self).spec_queue(),
                final(self).spec_max_depth(),
            ),
            old(self).spec_obeys() ==> {
                let step = old(self).spec_chain(old(self).spec_state(), pending_event.event);
                &&& final(self).spec_state() == step.0
                &&& ({
                    let list = events_or_empty(step.1);
                    if list.len() == 0 {
                        result is Ok && final(self).spec_queue() == old(self).spec_queue()
                    } else if pending_event.depth >= old(self).max_depth {
                        &&& result == Err::<(), DispatchError>(
                            DispatchError::MaxDepthExceeded {
                                depth: pending_event.depth,
                                max: old(self).max_depth,
                            },
                        )
                        &&& final(self).spec_queue() == old(self).spec_queue()
                    } else {
                        &&& result is Ok
                        &&& list.len() <= usize::MAX
                        &&& final(self).spec_queue() == old(self).spec_queue() + pending_at(
                            list,
                            (pending_event.depth + 1) as nat,
                        )
                    }
                })
            },
            result matches Err(DispatchError::MaxDepthExceeded { depth, max }) ==> depth
                == pending_event.depth && max == old(self).max_depth && depth >= max,
            result is Ok ==> final(self).spec_queue() == old(self).spec_queue() || (
            pending_event.depth < old(self).max_depth && exists|list: Seq<E>|
                list.len() <= usize::MAX && final(self).spec_queue() == old(self).spec_queue()
                    + pending_at(list, (pending_event.depth + 1) as nat)),
    {
        let event = pending_event.event;
        let events = self.pipeline.run_chain(0, &mut self.state, event);
        proof {
            assert(self.pipeline.middlewares@.skip(0) =~= self.pipeline.middlewares@);
        }
        self.queue_side_events(events, pending_event.depth)
    }
}

/// Stores with the same reducer, middlewares and depth bound run a queue
/// alike.
pub proof fn lemma_same_pipeline_same_run<S, E>(
    a: Store<S, E>,
    b: Store<S, E>,
    state: S,
    queue: Seq<(E, nat)>,
)
    requires
        a.spec_same_pipeline(b),
    ensures
        a.spec_run(state, queue) == b.spec_run(state, queue),
    decreases queue_weight(queue, a.spec_max_depth()),
{
    let max = a.spec_max_depth();
    if queue.len() > 0 {
        let (event, depth) = queue[0];
        assert(a.spec_chain(state, event) == b.spec_chain(state, event));
        let step = a.spec_chain(state, event);
        let events = events_or_empty(step.1);
        if events.len() == 0 {
            lemma_drop_lighter(queue, max);
            lemma_same_pipeline_same_run(a, b, step.0, queue.drop_first());
        } else if depth < max && events.len() <= usize::MAX {
            lemma_step_lighter(queue, events, max);
            lemma_same_pipeline_same_run(
                a,
                b,
                step.0,
                queue.drop_first() + pending_at(events, (depth + 1) as nat),
            );
        }
    }
}

/// Stores with the same reducer, middlewares and depth bound dispatch
/// alike.
pub proof fn lemma_same_pipeline_same_dispatch<S, E>(
    a: Store<S, E>,
    b: Store<S, E>,
    state: S,
    queue: Seq<(E, nat)>,
    event: E,
)
    requires
        a.spec_same_pipeline(b),
    ensures
        a.spec_dispatch_from(state, queue, event) == b.spec_dispatch_from(state, queue, event),
{
    assert(a.spec_chain(state, event) == b.spec_chain(state, event));
    let step = a.spec_chain(state, event);
    let events = events_or_empty(step.1);
    lemma_same_pipeline_same_run(a, b, step.0, queue);
    lemma_same_pipeline_same_run(a, b, step.0, queue + pending_at(events, 1));
}

/// Stores with the same reducer, middlewares and depth bound dispatch a
/// sequence of events alike.
pub proof fn lemma_same_pipeline_same_dispatch_all<S, E>(
    a: Store<S, E>,
    b: Store<S, E>,
    state: S,
    queue: Seq<(E, nat)>,
    events: Seq<E>,
)
    requires
        a.spec_same_pipeline(b),
    ensures
        a.spec_dispatch_all(state, queue, events) == b.spec_dispatch_all(state, queue, events),
    decreases events.len(),
{
    if events.len() > 0 {
        lemma_same_pipeline_same_dispatch_all(a, b, state, queue, events.drop_last());
        let before = a.spec_dispatch_all(state, queue, events.drop_last());
        lemma_same_pipeline_same_dispatch(a, b, before.0, before.1, events.last());
    }
}

/// Dispatching events in order stops at the first that fails: events that
/// come after it are never dispatched, and the outcome stays that of the
/// failed dispatch.
pub proof fn lemma_dispatch_all_stops_at_first_error<S, E>(
    store: Store<S, E>,
    state: S,
    queue: Seq<(E, nat)>,
    events: Seq<E>,
    later: Seq<E>,
)
    requires
        store.spec_dispatch_all(state, queue, events).2 is Err,
    ensures
        store.spec_dispatch_all(state, queue, events + later) == store.spec_dispatch_all(
            state,
            queue,
            events,
        ),
    decreases later.len(),
{
    if later.len() > 0 {
        lemma_dispatch_all_stops_at_first_error(store, state, queue, events, later.drop_last());
        assert((events + later).drop_last() =~= events + later.drop_last());
    } else {
        assert(events + later =~= events);
    }
}

/// Dispatching events in order, as long as none fails, dispatches each in
/// turn from where the previous ones left the state and the queue.
pub proof fn lemma_dispatch_all_push<S, E>(
    store: Store<S, E>,
    state: S,
    queue: Seq<(E, nat)>,
    events: Seq<E>,
    event: E,
)
    requires
        store.spec_dispatch_all(state, queue, events).2 is Ok,
    ensures
        ({
            let before = store.spec_dispatch_all(state, queue, events);
            store.spec_dispatch_all(state, queue, events.push(event))
                == store.spec_dispatch_from(before.0, before.1, event)
        }),
{
    assert(events.push(event).drop_last() =~= events);
}

/// The state after running, in queue order, each queued event through the
/// chain of `store`, starting from `state`.
pub open spec fn run_each<S, E>(store: Store<S, E>, state: S, queue: Seq<(E, nat)>) -> S
    decreases queue.len(),
{
    if queue.len() == 0 {
        state
    } else {
        run_each(store, store.spec_chain(state, queue[0].0).0, queue.drop_first())
    }
}

/// Appending entries no deeper than `max` keeps every entry within `max`.
proof fn lemma_depths_within_append<E>(a: Seq<(E, nat)>, events: Seq<E>, depth: nat, max: nat)
    requires
        depths_within(a, max),
        depth <= max,
    ensures
        depths_within(a + pending_at(events, depth), max),
{
    let b = a + pending_at(events, depth);
    assert forall|i: int| 0 <= i < b.len() implies #[trigger] b[i].1 <= max by {
        if i >= a.len() {
            assert(b[i] == pending_at(events, depth)[i - a.len()]);
        }
    }
}

/// A run from a queue within the maximum depth fails only at the maximum
/// depth: with `MaxDepthExceeded { depth: max_depth, max: max_depth }`.
pub proof fn lemma_run_fails_only_at_max_depth<S, E>(
    store: Store<S, E>,
    state: S,
    queue: Seq<(E, nat)>,
)
    requires
        depths_within(queue, store.spec_max_depth()),
    ensures
        store.spec_run(state, queue).2 matches Err(DispatchError::MaxDepthExceeded { depth, max })
            ==> depth == store.spec_max_depth() && max == store.spec_max_depth(),
    decreases queue_weight(queue, store.spec_max_depth()),
{
    let max = store.spec_max_depth();
    if queue.len() > 0 {
        let (event, depth) = queue[0];
        let step = store.spec_chain(state, event);
        assert(depth <= max);
        assert(depths_within(queue.drop_first(), max)) by {
            assert forall|i: int| 0 <= i < queue.drop_first().len() implies #[trigger]
                queue.drop_first()[i].1 <= max by {
                assert(queue.drop_first()[i] == queue[i + 1]);
            }
        }
        let events = events_or_empty(step.1);
        if events.len() == 0 {
            lemma_drop_lighter(queue, max);
            lemma_run_fails_only_at_max_depth(store, step.0, queue.drop_first());
        } else if depth < max && events.len() <= usize::MAX {
            lemma_step_lighter(queue, events, max);
            lemma_depths_within_append(queue.drop_first(), events, depth + 1, max);
            lemma_run_fails_only_at_max_depth(
                store,
                step.0,
                queue.drop_first() + pending_at(events, (depth + 1) as nat),
            );
        }
    }
}

/// A dispatch on a well-formed store fails only with
/// `MaxDepthExceeded { depth: max_depth, max: max_depth }`: the event whose
/// side events were refused ran at the maximum depth.
pub proof fn lemma_dispatch_fails_only_at_max_depth<S, E>(store: Store<S, E>, event: E)
    requires
        store.wf(),
    ensures
        store.spec_dispatch(event).2 matches Err(DispatchError::MaxDepthExceeded { depth, max })
            ==> depth == store.spec_max_depth() && max == store.spec_max_depth(),
{
    let max = store.spec_max_depth();
    let step = store.spec_chain(store.spec_state(), event);
    let events = events_or_empty(step.1);
    if events.len() == 0 {
        lemma_run_fails_only_at_max_depth(store, step.0, store.spec_queue());
    } else if max > 0 {
        lemma_depths_within_append(store.spec_queue(), events, 1, max);
        lemma_run_fails_only_at_max_depth(store, step.0, store.spec_queue() + pending_at(events, 1));
    }
}

/// A run that succeeds leaves no event queued.
pub proof fn lemma_run_ok_drains_queue<S, E>(store: Store<S, E>, state: S, queue: Seq<(E, nat)>)
    ensures
        store.spec_run(state, queue).2 is Ok ==> store.spec_run(state, queue).1.len() == 0,
    decreases queue_weight(queue, store.spec_max_depth()),
{
    let max = store.spec_max_depth();
    if queue.len() > 0 {
        let (event, depth) = queue[0];
        let step = store.spec_chain(state, event);
        let events = events_or_empty(step.1);
        if events.len() == 0 {
            lemma_drop_lighter(queue, max);
            lemma_run_ok_drains_queue(store, step.0, queue.drop_first());
        } else if depth < max && events.len() <= usize::MAX {
            lemma_step_lighter(queue, events, max);
            lemma_run_ok_drains_queue(
                store,
                step.0,
                queue.drop_first() + pending_at(events, (depth + 1) as nat),
            );
        }
    }
}

/// A dispatch that succeeds leaves no event queued: every side event, and
/// every event left over from an earlier failed dispatch, has run.
pub proof fn lemma_dispatch_ok_drains_queue<S, E>(store: Store<S, E>, event: E)
    ensures
        store.spec_dispatch(event).2 is Ok ==> store.spec_dispatch(event).1.len() == 0,
{
    let step = store.spec_chain(store.spec_state(), event);
    let events = events_or_empty(step.1);
    if events.len() == 0 {
        lemma_run_ok_drains_queue(store, step.0, store.spec_queue());
    } else {
        lemma_run_ok_drains_queue(store, step.0, store.spec_queue() + pending_at(events, 1));
    }
}

/// Events whose pass through the chain emits no side events, from any
/// state, run one after the other in queue order: the run ends in the state
/// that running each of them in turn gives, with nothing left and no error.
pub proof fn lemma_run_in_queue_order<S, E>(store: Store<S, E>, state: S, queue: Seq<(E, nat)>)
    requires
        forall|i: int, st: S| 0 <= i < queue.len() ==> (#[trigger] store.spec_chain(st, queue[i].0)).1 is None,
    ensures
        store.spec_run(state, queue) == (run_each(store, state, queue), Seq::<(E, nat)>::empty(), Ok::<(), DispatchError>(())),
    decreases queue.len(),
{
    if queue.len() > 0 {
        let step = store.spec_chain(state, queue[0].0);
        assert(step.1 is None);
        lemma_drop_lighter(queue, store.spec_max_depth());
        assert forall|i: int, st: S| 0 <= i < queue.drop_first().len() implies (#[trigger] store.spec_chain(st, queue.drop_first()[i].0)).1 is None by {
            assert(queue.drop_first()[i] == queue[i + 1]);
        }
        lemma_run_in_queue_order(store, step.0, queue.drop_first());
    }
}

/// The side events of a queued event run after every event queued before
/// them (FIFO): they are appended at the back of the queue, one level
/// deeper.
pub proof fn lemma_side_events_queued_behind<S, E>(
    store: Store<S, E>,
    state: S,
    queue: Seq<(E, nat)>,
    events: Seq<E>,
)
    requires
        queue.len() > 0,
        queue[0].1 < store.spec_max_depth(),
        events.len() <= usize::MAX,
        store.spec_chain(state, queue[0].0).1 == Some(events),
    ensures
        store.spec_run(state, queue) == store.spec_run(
            store.spec_chain(state, queue[0].0).0,
            queue.drop_first() + pending_at(events, (queue[0].1 + 1) as nat),
        ),
{
}

/// A dispatch on an empty queue of an event whose pass through the chain
/// emits no side events ends in the chain's state, successfully.
pub proof fn lemma_dispatch_without_side_events<S, E>(store: Store<S, E>, event: E)
    requires
        store.spec_queue().len() == 0,
        store.spec_chain(store.spec_state(), event).1 is None,
    ensures
        store.spec_dispatch(event) == (
            store.spec_chain(store.spec_state(), event).0,
            Seq::<(E, nat)>::empty(),
            Ok::<(), DispatchError>(()),
        ),
{
}

/// Without middlewares, a pass through the chain is the reducer step.
pub proof fn lemma_onion_without_middlewares<S, E>(
    mws: Seq<Box<dyn Middleware<S, E>>>,
    reduce: spec_fn(S, E) -> (S, Option<Seq<E>>),
    state: S,
    event: E,
)
    requires
        mws.len() == 0,
    ensures
        onion(mws, reduce, state, event) == reduce(state, event),
{
}

/// A middleware that skips short-circuits the chain: the state is
/// unchanged and its own side events are the result, whatever the inner
/// middlewares and the reducer would do.
pub proof fn lemma_onion_skip_keeps_state<S, E>(
    mws: Seq<Box<dyn Middleware<S, E>>>,
    reduce: spec_fn(S, E) -> (S, Option<Seq<E>>),
    state: S,
    event: E,
    output: Option<Seq<E>>,
)
    requires
        mws.len() > 0,
        mws[0].spec_before(state, event) == FlowSpec::Skip(output),
    ensures
        onion(mws, reduce, state, event) == (state, output),
{
}

/// Middlewares that pass every event on unchanged and every inner output
/// back unchanged leave the chain equal to the reducer step.
pub proof fn lemma_onion_transparent<S, E>(
    mws: Seq<Box<dyn Middleware<S, E>>>,
    reduce: spec_fn(S, E) -> (S, Option<Seq<E>>),
    state: S,
    event: E,
)
    requires
        forall|i: int, s: S, e: E| 0 <= i < mws.len() ==> #[trigger] mws[i].spec_before(s, e) == FlowSpec::Next(e),
        forall|i: int, s: S, o: Option<Seq<E>>| 0 <= i < mws.len() ==> #[trigger] mws[i].spec_after(s, o) == o,
    ensures
        onion(mws, reduce, state, event) == reduce(state, event),
    decreases mws.len(),
{
    if mws.len() > 0 {
        assert(mws[0].spec_before(state, event) == FlowSpec::Next(event));
        let rest = mws.drop_first();
        assert forall|i: int, s: S, e: E| 0 <= i < rest.len() implies #[trigger] rest[i].spec_before(s, e) == FlowSpec::Next(e) by {
            assert(rest[i] == mws[i + 1]);
        }
        assert forall|i: int, s: S, o: Option<Seq<E>>| 0 <= i < rest.len() implies #[trigger] rest[i].spec_after(s, o) == o by {
            assert(rest[i] == mws[i + 1]);
        }
        lemma_onion_transparent(rest, reduce, state, event);
        let inner = onion(rest, reduce, state, event);
        assert(mws[0].spec_after(inner.0, inner.1) == inner.1);
    }
}

} // verus!
