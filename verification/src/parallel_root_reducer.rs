//! Parallel root reducer: applies a list of [`SliceReducer`]s in parallel
//! via Rayon, with compile-time guarantees that each state slice has exactly
//! one matching reducer. See [`ParallelRootReducer`] for usage.

use crate::hlist::{HCons, HNil, IntoHList};
use crate::indices::{Here, There};
use crate::reducer::{
    events_or_empty, events_view, none_if_empty, Reducer, ReducerOutput, SliceReducer,
};
use crate::sequential_root_reducer::SequentialRootReducer;
use crate::state::{HasSlice, SliceRefs, StateSlices};
use std::marker::PhantomData;
use vstd::prelude::*;

verus! {

/// Combines [`SliceReducer`]s into a single [`Reducer`] over the full
/// state, applying each slice reducer **in parallel** via Rayon.
///
/// # Compile-time guarantees
///
/// The state must implement [`crate::StateSlices`] declaring its slice list.
/// At every [`Reducer::reduce`] call, the compiler walks the slices and
/// matches each slice to a reducer of the list by its `Slice` associated
/// type:
///
/// - **Disjointness**: two reducers targeting the same slice produce an
///   "ambiguous impl" error.
/// - **Completeness**: a state slice with no matching reducer produces a
///   "trait not implemented" error.
///
/// # Runtime behavior
///
/// Each slice reducer runs on a Rayon worker thread, on a `&mut Slice`
/// projection of the state. Each may update its slice and produce optional
/// side events. The side events are concatenated **in slice declaration
/// order** (deterministic, independent of execution order).
///
/// # Type parameters
///
/// - `Reducers`: the HList of reducers (built from the tuple via
///   [`IntoHList`])
/// - `E`: the shared event type across reducers (inferred from usage)
/// - `Indices`: the HList of positional witnesses used by the compiler to
///   resolve each slice's reducer (inferred from usage)
///
/// # Arity
///
/// Tuples of 1 to 12 [`SliceReducer`]s are supported.
pub struct ParallelRootReducer<Reducers, E, Indices> {
    slice_reducers: Reducers,
    _marker: PhantomData<(E, Indices)>,
}

impl<Reducers, E, Indices> ParallelRootReducer<Reducers, E, Indices> {
    /// The slice reducers, as an HList in declaration order.
    pub closed spec fn spec_reducers(&self) -> Reducers {
        self.slice_reducers
    }

    /// Builds a parallel root reducer from a tuple of slice reducers.
    ///
    /// The tuple is converted to an HList via [`IntoHList`] so the recursive
    /// trait machinery can walk it at compile time.
    pub fn new<Tuple>(reducers: Tuple) -> (root: Self) where Tuple: IntoHList<Output = Reducers>
        ensures
            root.spec_reducers() == reducers.spec_into_hlist(),
    {
        ParallelRootReducer { slice_reducers: reducers.into_hlist(), _marker: PhantomData }
    }
}

/// Finds a slice reducer in an HList of slice reducers by its slice type.
pub trait FindReducerBySlice<TargetSlice, Index> {
    /// The reducer found.
    type Reducer;

    /// The reducer found, at the position that `Index` encodes.
    spec fn spec_find(&self) -> Self::Reducer;

    /// Returns the reducer of `TargetSlice`.
    fn find(&self) -> (reducer: &Self::Reducer)
        ensures
            *reducer == self.spec_find(),
    ;
}

/// Base case: the target slice is the head reducer's.
impl<HeadReducer, TailReducers, TargetSlice> FindReducerBySlice<TargetSlice, Here> for HCons<
    HeadReducer,
    TailReducers,
> where HeadReducer: SliceReducer<Slice = TargetSlice> {
    type Reducer = HeadReducer;

    open spec fn spec_find(&self) -> HeadReducer {
        self.head
    }

    fn find(&self) -> (reducer: &HeadReducer) {
        &self.head
    }
}

/// Recursive case: the target slice is a reducer's of the tail.
impl<HeadReducer, TailReducers, TargetSlice, TailIndex> FindReducerBySlice<
    TargetSlice,
    There<TailIndex>,
> for HCons<HeadReducer, TailReducers> where
    TailReducers: FindReducerBySlice<TargetSlice, TailIndex>,
 {
    type Reducer = <TailReducers as FindReducerBySlice<TargetSlice, TailIndex>>::Reducer;

    open spec fn spec_find(&self) -> Self::Reducer {
        self.tail.spec_find()
    }

    fn find(&self) -> (reducer: &Self::Reducer) {
        self.tail.find()
    }
}

/// Runs, on an HList of mutable slice references, the reducer of each slice.
pub trait ApplyReducers<Reducers, S, E, Indices>: Sized + SliceRefs {
    /// The side events of the reducers of the slices, each run on its
    /// slice's value in `values`, concatenated in slice order.
    spec fn spec_events(values: Self::Values, reducers: Reducers, event: E) -> Seq<E>;

    /// The reducer of every slice is described by its specification.
    spec fn spec_obeys(reducers: Reducers) -> bool;

    /// Runs the reducer of each slice on it; returns the side events
    /// concatenated in slice order, `None` when there are none.
    fn apply(self, reducers: &Reducers, event: &E) -> (output: ReducerOutput<E>)
        ensures
            Self::spec_obeys(*reducers) ==> events_view(output) == none_if_empty(
                Self::spec_events(self.spec_values(), *reducers, *event),
            ),
    ;
}

/// Implementation when recursion reaches the end of the list of slices.
impl<Reducers, S, E> ApplyReducers<Reducers, S, E, HNil> for HNil {
    open spec fn spec_events(values: HNil, reducers: Reducers, event: E) -> Seq<E> {
        Seq::empty()
    }

    open spec fn spec_obeys(reducers: Reducers) -> bool {
        true
    }

    fn apply(self, _reducers: &Reducers, _event: &E) -> (output: ReducerOutput<E>) {
        None
    }
}

/// Runs `reducer` on `head` and the rest of the slices' reducers on `rest`,
/// through `rayon::join`.
///
/// `rayon::join` runs both closures, potentially in parallel, and returns
/// the pair of their results. The first closure calls
/// [`SliceReducer::reduce`] on `head`, the second calls
/// [`ApplyReducers::apply`] on `rest`: the contract is theirs, for the first
/// and the second result.
#[verifier::external_body]
fn join_reduce<Reducers, HeadReducer, HeadSlice, RestSlices, S, E, RestIndices>(
    reducer: &HeadReducer,
    head: &mut HeadSlice,
    rest: RestSlices,
    reducers: &Reducers,
    event: &E,
) -> (outputs: (ReducerOutput<E>, ReducerOutput<E>)) where
    Reducers: Sync,
    HeadReducer: SliceReducer<Slice = HeadSlice, Event = E> + Sync,
    E: Send + Sync,
    HeadSlice: Send + Sync,
    RestSlices: ApplyReducers<Reducers, S, E, RestIndices> + Send + Sync,

    ensures
        reducer.spec_obeys_reduce() ==> (*final(head), events_view(outputs.0))
            == reducer.spec_reduce(*old(head), *event),
        RestSlices::spec_obeys(*reducers) ==> events_view(outputs.1) == none_if_empty(
            RestSlices::spec_events(rest.spec_values(), *reducers, *event),
        ),
{
    rayon::join(|| reducer.reduce(head, event), || rest.apply(reducers, event))
}

/// One reducer's side events, empty for none.
fn take_events<E>(output: ReducerOutput<E>) -> (events: Vec<E>)
    ensures
        events@ == events_or_empty(events_view(output)),
{
    match output {
        Some(events) => events,
        None => Vec::new(),
    }
}

/// Implementation when recursion continues through the list of slices.
impl<'a, Reducers, HeadReducer, S, E, HeadSlice, RestSlices, Index, RestIndices> ApplyReducers<
    Reducers,
    S,
    E,
    HCons<Index, RestIndices>,
> for HCons<&'a mut HeadSlice, RestSlices> where
    Reducers: FindReducerBySlice<HeadSlice, Index, Reducer = HeadReducer> + Sync,
    HeadReducer: SliceReducer<Slice = HeadSlice, Event = E> + Sync,
    E: Send + Sync,
    HeadSlice: Send + Sync,
    RestSlices: ApplyReducers<Reducers, S, E, RestIndices> + Send + Sync,
 {
    open spec fn spec_events(
        values: HCons<HeadSlice, RestSlices::Values>,
        reducers: Reducers,
        event: E,
    ) -> Seq<E> {
        events_or_empty(reducers.spec_find().spec_reduce(values.head, event).1)
            + RestSlices::spec_events(values.tail, reducers, event)
    }

    open spec fn spec_obeys(reducers: Reducers) -> bool {
        reducers.spec_find().spec_obeys_reduce() && RestSlices::spec_obeys(reducers)
    }

    fn apply(self, reducers: &Reducers, event: &E) -> (output: ReducerOutput<E>)
        ensures
            reducers.spec_find().spec_obeys_reduce() ==> *final(self.head)
                == reducers.spec_find().spec_reduce(*old(self.head), *event).0,
    {
        let reducer = reducers.find();
        let outputs = join_reduce(reducer, self.head, self.tail, reducers, event);
        let mut side_events = take_events(outputs.0);
        let mut rest_side_events = take_events(outputs.1);
        side_events.append(&mut rest_side_events);
        if side_events.len() == 0 {
            None
        } else {
            Some(side_events)
        }
    }
}

impl<S, Reducers, E, Indices> Reducer<S> for ParallelRootReducer<Reducers, E, Indices> where
    S: StateSlices,
    for <'s>S::Slices<'s>: ApplyReducers<Reducers, S, E, Indices>,
 {
    type Event = E;

    /// `false`: which state the slice references of `StateSlices::to_slices`
    /// write back to cannot be stated here, so the effect is stated on the
    /// slice references, by `ApplyReducers::apply`.
    open spec fn spec_obeys_reduce(&self) -> bool {
        false
    }

    /// The side events are those of the slice reducers, each run on its
    /// slice's value before the event, concatenated in slice order; `None`
    /// when there are none.
    fn reduce<'a>(&self, state: &'a mut S, event: &E) -> (output: ReducerOutput<E>)
        ensures
            S::spec_obeys_slices() && <S::Slices<'a> as ApplyReducers<
                Reducers,
                S,
                E,
                Indices,
            >>::spec_obeys(self.spec_reducers()) ==> events_view(output) == none_if_empty(
                <S::Slices<'a> as ApplyReducers<Reducers, S, E, Indices>>::spec_events(
                    old(state).spec_slice_values(),
                    self.spec_reducers(),
                    *event,
                ),
            ),
    {
        state.to_slices().apply(&self.slice_reducers, event)
    }
}

/// Two slice reducers on different slices give the same side events run
/// side by side as one after the other: the parallel root reducer runs each
/// on its slice's value before the event, and so does the sequential one
/// where writing the first slice leaves the second as it was.
pub proof fn lemma_parallel_events_match_sequential<'a, S, T1, T2, E, R1, R2>(
    parallel: ParallelRootReducer<HCons<R1, HCons<R2, HNil>>, E, HCons<Here, HCons<There<Here>, HNil>>>,
    sequential: SequentialRootReducer<HCons<R1, HCons<R2, HNil>>>,
    state: S,
    event: E,
) where
    R1: SliceReducer<Slice = T1, Event = E> + Sync,
    R2: SliceReducer<Slice = T2, Event = E> + Sync,
    S: HasSlice<T1> + HasSlice<T2>,
    E: Send + Sync,
    T1: Send + Sync + 'a,
    T2: Send + Sync + 'a,

    requires
        parallel.spec_reducers() == sequential.spec_reducers(),
        forall|s: S, t: T1| #[trigger]
            <S as HasSlice<T2>>::spec_slice(&<S as HasSlice<T1>>::spec_with_slice(&s, t))
                == <S as HasSlice<T2>>::spec_slice(&s),
    ensures
        sequential.spec_reduce(state, event).1 == none_if_empty(
            <HCons<&'a mut T1, HCons<&'a mut T2, HNil>> as ApplyReducers<
                HCons<R1, HCons<R2, HNil>>,
                S,
                E,
                HCons<Here, HCons<There<Here>, HNil>>,
            >>::spec_events(
                HCons {
                    head: <S as HasSlice<T1>>::spec_slice(&state),
                    tail: HCons { head: <S as HasSlice<T2>>::spec_slice(&state), tail: HNil },
                },
                parallel.spec_reducers(),
                event,
            ),
        ),
{
    let reducers = parallel.spec_reducers();
    let first = reducers.head.spec_reduce(<S as HasSlice<T1>>::spec_slice(&state), event);
    let after_first = <S as HasSlice<T1>>::spec_with_slice(&state, first.0);
    assert(<S as HasSlice<T2>>::spec_slice(&after_first) == <S as HasSlice<T2>>::spec_slice(&state));
    let second = reducers.tail.head.spec_reduce(<S as HasSlice<T2>>::spec_slice(&state), event);
    assert(events_or_empty(second.1) + Seq::<E>::empty() =~= events_or_empty(second.1));
}

} // verus!
