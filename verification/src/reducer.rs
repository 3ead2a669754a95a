//! Reducer traits: in-place update operations on `(&mut state, event)`.
//!
//! [`Reducer`] operates on the full state. [`SliceReducer`] operates on an
//! isolated slice and composes with its peers through a root reducer.

use vstd::prelude::*;

verus! {

/// The output of a reducer: the side events to re-dispatch through the
/// store, `None` (or an empty list) for none.
pub type ReducerOutput<E> = Option<Vec<E>>;

/// The side events of a reducer output, as a sequence.
pub open spec fn events_view<E>(output: Option<Vec<E>>) -> Option<Seq<E>> {
    match output {
        Some(events) => Some(events@),
        None => None,
    }
}

/// All events of an optional sequence, the empty sequence for `None`.
pub open spec fn events_or_empty<E>(events: Option<Seq<E>>) -> Seq<E> {
    match events {
        Some(s) => s,
        None => Seq::empty(),
    }
}

/// `None` for an empty sequence of events, the sequence itself otherwise.
pub open spec fn none_if_empty<E>(events: Seq<E>) -> Option<Seq<E>> {
    if events.len() == 0 {
        None
    } else {
        Some(events)
    }
}

/// A `Reducer` updates `state` according to `event`.
///
/// Optionally, a reducer may output side events, which are dispatched by the
/// `Store` once dispatch for the current event finishes.
pub trait Reducer<S> {
    /// The event type this reducer handles.
    type Event;

    /// The new state and the side events that `reduce` produces, where
    /// `spec_obeys_reduce` holds.
    open spec fn spec_reduce(&self, state: S, event: Self::Event) -> (S, Option<Seq<Self::Event>>) {
        arbitrary()
    }

    /// Whether `spec_reduce` describes this reducer. `false` unless an
    /// implementation states and proves its effect.
    open spec fn spec_obeys_reduce(&self) -> bool {
        false
    }

    /// Update the state.
    ///
    /// Aside from `&mut state`, reducers must be pure, i.e., no other
    /// mutation, no I/O.
    fn reduce(&self, state: &mut S, event: &Self::Event) -> (output: ReducerOutput<Self::Event>)
        ensures
            self.spec_obeys_reduce() ==> (*final(state), events_view(output)) == self.spec_reduce(
                *old(state),
                *event,
            ),
    ;
}

/// Like [`Reducer`], but operates on a slice of the global state.
///
/// The `reduce` method receives `&mut Self::Slice`, making access to other
/// slices impossible by construction.
pub trait SliceReducer {
    /// The event type this reducer handles.
    type Event;
    /// The slice of global state this reducer operates on.
    type Slice;

    /// The new slice and the side events that `reduce` produces, where
    /// `spec_obeys_reduce` holds.
    open spec fn spec_reduce(&self, slice: Self::Slice, event: Self::Event) -> (
        Self::Slice,
        Option<Seq<Self::Event>>,
    ) {
        arbitrary()
    }

    /// Whether `spec_reduce` describes this reducer. `false` unless an
    /// implementation states and proves its effect.
    open spec fn spec_obeys_reduce(&self) -> bool {
        false
    }

    /// Update the slice.
    ///
    /// Aside from `&mut slice`, reducers must be pure, i.e., no other
    /// mutation, no I/O.
    fn reduce(&self, slice: &mut Self::Slice, event: &Self::Event) -> (output: ReducerOutput<
        Self::Event,
    >)
        ensures
            self.spec_obeys_reduce() ==> (*final(slice), events_view(output)) == self.spec_reduce(
                *old(slice),
                *event,
            ),
    ;
}

} // verus!
