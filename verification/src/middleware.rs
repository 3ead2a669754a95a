//! Middleware composition for the dispatch pipeline.
//!
//! Middlewares wrap the dispatch chain to add cross-cutting concerns
//! (logging, metrics, validation, conditional dispatch). They follow the
//! onion model: the first middleware in the list is the outermost. It sees
//! the event first and the resulting state last.
//!
//! ```text
//! dispatch(event)
//!     |
//!     v
//!  +- M1 -------------------------------+
//!  | before1                            |
//!  |  +- M2 ---------------------------+|
//!  |  | before2                        ||
//!  |  |  +- reducer -----------------+ ||
//!  |  |  | state mutated in place    | ||  <- commit
//!  |  |  +---------------------------+ ||
//!  |  | after2  (sees new state)       ||
//!  |  +--------------------------------+|
//!  | after1  (sees new state)           |
//!  +------------------------------------+
//! ```

use crate::reducer::{events_view, ReducerOutput};
use vstd::prelude::*;

verus! {

/// What a middleware decides before the inner chain runs.
pub enum Flow<E> {
    /// Run the inner chain with this event (the one received or a
    /// replacement).
    Next(E),
    /// Skip the inner chain: the state stays unchanged and these are the
    /// side events of the whole step.
    Skip(ReducerOutput<E>),
}

/// The mathematical form of a [`Flow`].
pub enum FlowSpec<E> {
    Next(E),
    Skip(Option<Seq<E>>),
}

impl<E> View for Flow<E> {
    type V = FlowSpec<E>;

    open spec fn view(&self) -> FlowSpec<E> {
        match self {
            Flow::Next(event) => FlowSpec::Next(*event),
            Flow::Skip(output) => FlowSpec::Skip(events_view(*output)),
        }
    }
}

/// A wrapper around the dispatch chain.
///
/// [`before`](Middleware::before) runs first and decides whether the inner
/// chain runs:
///
/// - **[`Flow::Next`]** runs the inner chain, then
///   [`after`](Middleware::after) sees the updated state and the inner side
///   events, and returns the side events of the step.
/// - **[`Flow::Skip`]** short-circuits: state unchanged, side events come
///   only from this middleware.
///
/// Registered with [`crate::Store::new`].
pub trait Middleware<S, E> {
    /// The decision that `before` takes on `state` and `event`, where
    /// `spec_obeys_middleware` holds.
    open spec fn spec_before(&self, state: S, event: E) -> FlowSpec<E> {
        arbitrary()
    }

    /// The side events that `after` returns, given the state after the inner
    /// chain ran and the side events of the inner chain, where
    /// `spec_obeys_middleware` holds.
    open spec fn spec_after(&self, state: S, side_events: Option<Seq<E>>) -> Option<Seq<E>> {
        arbitrary()
    }

    /// Whether `spec_before` and `spec_after` describe this middleware.
    /// `false` unless an implementation states and proves them.
    open spec fn spec_obeys_middleware(&self) -> bool {
        false
    }

    /// Runs before the inner chain: pass an event on, or short-circuit.
    fn before(&self, state: &S, event: E) -> (flow: Flow<E>)
        ensures
            self.spec_obeys_middleware() ==> flow@ == self.spec_before(*state, event),
    ;

    /// Runs after the inner chain, with the updated state and the inner
    /// side events.
    fn after(&self, state: &S, side_events: ReducerOutput<E>) -> (output: ReducerOutput<E>)
        ensures
            self.spec_obeys_middleware() ==> events_view(output) == self.spec_after(
                *state,
                events_view(side_events),
            ),
    ;
}

} // verus!
