//! Sequential root reducer: applies a list of [`SliceReducer`]s in
//! declaration order, each on its slice of the state as the previous ones
//! left it. See [`SequentialRootReducer`] for usage.

use crate::hlist::{HCons, HNil, IntoHList};
use crate::reducer::{events_or_empty, none_if_empty, Reducer, ReducerOutput, SliceReducer};
use crate::state::HasSlice;
use vstd::prelude::*;

verus! {

/// Combines [`SliceReducer`]s into a single [`Reducer`] over the full
/// state, applying each slice reducer **in declaration order**.
///
/// # Behavior
///
/// On each [`Reducer::reduce`] call, each slice reducer is invoked in order
/// on its slice (via [`HasSlice::slice`]), so the next reducer runs on the
/// state as the previous one left it. Side events from all reducers are
/// concatenated in tuple order; the output is `None` when there are none.
///
/// # When to use
///
/// - When two reducers may target the same slice and you want the later one
///   to win (e.g. layered logic).
/// - When the state type doesn't implement [`crate::StateSlices`].
///
/// For independent, disjoint slice reducers with parallel execution, use
/// [`crate::ParallelRootReducer`] instead.
///
/// # Arity
///
/// Tuples of 1 to 12 [`SliceReducer`]s are supported.
pub struct SequentialRootReducer<Reducers> {
    reducers: Reducers,
}

impl<Reducers> SequentialRootReducer<Reducers> {
    /// The slice reducers, as an HList in declaration order.
    pub closed spec fn spec_reducers(&self) -> Reducers {
        self.reducers
    }

    /// Builds a sequential root reducer from a tuple of slice reducers.
    pub fn new<Tuple>(reducers: Tuple) -> (root: Self) where Tuple: IntoHList<Output = Reducers>
        ensures
            root.spec_reducers() == reducers.spec_into_hlist(),
    {
        SequentialRootReducer { reducers: reducers.into_hlist() }
    }
}

/// A non-empty HList of slice reducers sharing one event type, applied one
/// after the other on a state `S` that holds each of their slices.
pub trait SequentialReducers<S> {
    /// The event type shared by the reducers.
    type Event;

    /// The state after every reducer ran in list order, and the
    /// concatenation of their side events in list order.
    spec fn spec_apply(&self, state: S, event: Self::Event) -> (S, Seq<Self::Event>);

    /// Every reducer and every slice access of the list is described by its
    /// specification.
    spec fn spec_obeys(&self) -> bool;

    /// Runs every reducer in list order on its slice of `state`.
    fn apply(&self, state: &mut S, event: &Self::Event) -> (events: Vec<Self::Event>)
        ensures
            self.spec_obeys() ==> (*final(state), events@) == self.spec_apply(*old(state), *event),
    ;
}

/// One reducer: the side events it emits, empty for none.
fn take_events<E>(output: ReducerOutput<E>) -> (events: Vec<E>)
    ensures
        events@ == events_or_empty(crate::reducer::events_view(output)),
{
    match output {
        Some(events) => events,
        None => Vec::new(),
    }
}

impl<S, R> SequentialReducers<S> for HCons<R, HNil> where R: SliceReducer, S: HasSlice<R::Slice> {
    type Event = R::Event;

    open spec fn spec_apply(&self, state: S, event: R::Event) -> (S, Seq<R::Event>) {
        let reduced = self.head.spec_reduce(state.spec_slice(), event);
        (state.spec_with_slice(reduced.0), events_or_empty(reduced.1))
    }

    open spec fn spec_obeys(&self) -> bool {
        self.head.spec_obeys_reduce() && <S as HasSlice<R::Slice>>::spec_obeys_slice()
    }

    fn apply(&self, state: &mut S, event: &R::Event) -> (events: Vec<R::Event>) {
        let output = self.head.reduce(state.slice(), event);
        take_events(output)
    }
}

impl<S, R, R2, T> SequentialReducers<S> for HCons<R, HCons<R2, T>> where
    R: SliceReducer,
    S: HasSlice<R::Slice>,
    HCons<R2, T>: SequentialReducers<S, Event = R::Event>,
 {
    type Event = R::Event;

    open spec fn spec_apply(&self, state: S, event: R::Event) -> (S, Seq<R::Event>) {
        let reduced = self.head.spec_reduce(state.spec_slice(), event);
        let rest = self.tail.spec_apply(state.spec_with_slice(reduced.0), event);
        (rest.0, events_or_empty(reduced.1) + rest.1)
    }

    open spec fn spec_obeys(&self) -> bool {
        &&& self.head.spec_obeys_reduce()
        &&& <S as HasSlice<R::Slice>>::spec_obeys_slice()
        &&& self.tail.spec_obeys()
    }

    fn apply(&self, state: &mut S, event: &R::Event) -> (events: Vec<R::Event>) {
        let output = self.head.reduce(state.slice(), event);
        let mut events = take_events(output);
        let mut rest = self.tail.apply(state, event);
        events.append(&mut rest);
        events
    }
}

impl<S, L> Reducer<S> for SequentialRootReducer<L> where L: SequentialReducers<S> {
    type Event = L::Event;

    open spec fn spec_reduce(&self, state: S, event: L::Event) -> (S, Option<Seq<L::Event>>) {
        let applied = self.spec_reducers().spec_apply(state, event);
        (applied.0, none_if_empty(applied.1))
    }

    open spec fn spec_obeys_reduce(&self) -> bool {
        self.spec_reducers().spec_obeys()
    }

    fn reduce(&self, state: &mut S, event: &L::Event) -> (output: ReducerOutput<L::Event>) {
        let events = self.reducers.apply(state, event);
        if events.len() == 0 {
            None
        } else {
            Some(events)
        }
    }
}

/// Two slice reducers on the same slice, where the slice access behaves as
/// a field (a written slice reads back; a second write replaces the first):
/// the second reducer runs on the slice that the first left, its write is
/// the one that stays, and the side events of the first come first.
pub proof fn lemma_later_reducer_wins<S, T, E, R1, R2>(
    root: SequentialRootReducer<HCons<R1, HCons<R2, HNil>>>,
    state: S,
    event: E,
) where R1: SliceReducer<Slice = T, Event = E>, R2: SliceReducer<Slice = T, Event = E>, S: HasSlice<T>
    requires
        forall|s: S, t: T| #[trigger] s.spec_with_slice(t).spec_slice() == t,
        forall|s: S, a: T, b: T| #[trigger]
            s.spec_with_slice(a).spec_with_slice(b) == s.spec_with_slice(b),
    ensures
        ({
            let first = root.spec_reducers().head.spec_reduce(state.spec_slice(), event);
            let second = root.spec_reducers().tail.head.spec_reduce(first.0, event);
            root.spec_reduce(state, event) == (
                state.spec_with_slice(second.0),
                none_if_empty(events_or_empty(first.1) + events_or_empty(second.1)),
            )
        }),
{
    let first = root.spec_reducers().head.spec_reduce(state.spec_slice(), event);
    assert(state.spec_with_slice(first.0).spec_slice() == first.0);
    let second = root.spec_reducers().tail.head.spec_reduce(first.0, event);
    assert(state.spec_with_slice(first.0).spec_with_slice(second.0) == state.spec_with_slice(
        second.0,
    ));
    assert(events_or_empty(second.1) + Seq::<E>::empty() =~= events_or_empty(second.1));
}

/// Two slice reducers on different slices, where writing the first slice
/// leaves the second as it was: each reducer runs on its slice as it was
/// before the event, as if they ran side by side on one snapshot.
pub proof fn lemma_disjoint_reducers_see_snapshot<S, T1, T2, E, R1, R2>(
    root: SequentialRootReducer<HCons<R1, HCons<R2, HNil>>>,
    state: S,
    event: E,
) where
    R1: SliceReducer<Slice = T1, Event = E>,
    R2: SliceReducer<Slice = T2, Event = E>,
    S: HasSlice<T1> + HasSlice<T2>,

    requires
        forall|s: S, t: T1| #[trigger]
            <S as HasSlice<T2>>::spec_slice(&<S as HasSlice<T1>>::spec_with_slice(&s, t))
                == <S as HasSlice<T2>>::spec_slice(&s),
    ensures
        ({
            let first = root.spec_reducers().head.spec_reduce(
                <S as HasSlice<T1>>::spec_slice(&state),
                event,
            );
            let second = root.spec_reducers().tail.head.spec_reduce(
                <S as HasSlice<T2>>::spec_slice(&state),
                event,
            );
            root.spec_reduce(state, event) == (
                <S as HasSlice<T2>>::spec_with_slice(
                    &<S as HasSlice<T1>>::spec_with_slice(&state, first.0),
                    second.0,
                ),
                none_if_empty(events_or_empty(first.1) + events_or_empty(second.1)),
            )
        }),
{
    let first = root.spec_reducers().head.spec_reduce(<S as HasSlice<T1>>::spec_slice(&state), event);
    let after_first = <S as HasSlice<T1>>::spec_with_slice(&state, first.0);
    assert(<S as HasSlice<T2>>::spec_slice(&after_first) == <S as HasSlice<T2>>::spec_slice(&state));
    let second = root.spec_reducers().tail.head.spec_reduce(<S as HasSlice<T2>>::spec_slice(&state), event);
    assert(events_or_empty(second.1) + Seq::<E>::empty() =~= events_or_empty(second.1));
}

} // verus!
