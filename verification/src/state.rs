//! State slice access. Required to compose [`crate::SliceReducer`]s over a
//! struct containing multiple slices.

use crate::hlist::{HCons, HList, HNil};
use vstd::prelude::*;

verus! {

/// Gives access to a state slice for reading and update.
///
/// Implement once per slice type your state contains. The state type holds
/// the slices as fields; this trait exposes them generically so reducers
/// can update them without coupling to the concrete struct.
pub trait HasSlice<T>: Sized {
    /// The slice held by the state, where `spec_obeys_slice` holds.
    open spec fn spec_slice(&self) -> T {
        arbitrary()
    }

    /// The state with its slice replaced by `slice`, where
    /// `spec_obeys_slice` holds.
    open spec fn spec_with_slice(&self, slice: T) -> Self {
        arbitrary()
    }

    /// Whether `spec_slice` and `spec_with_slice` describe `slice`. `false`
    /// unless an implementation states and proves them.
    open spec fn spec_obeys_slice() -> bool {
        false
    }

    /// Returns a reference to the slice. What is written through it ends up
    /// in the state.
    fn slice(&mut self) -> (slice: &mut T)
        ensures
            Self::spec_obeys_slice() ==> *slice == old(self).spec_slice(),
            Self::spec_obeys_slice() ==> *final(self) == old(self).spec_with_slice(*final(slice)),
    ;
}

/// An HList of mutable references to slices, seen through the values they
/// currently point to.
pub trait SliceRefs {
    /// The HList of the slice values, in the same order.
    type Values;

    /// The values that the references currently point to.
    spec fn spec_values(&self) -> Self::Values;
}

impl SliceRefs for HNil {
    type Values = HNil;

    open spec fn spec_values(&self) -> HNil {
        HNil
    }
}

impl<'a, H, T: SliceRefs> SliceRefs for HCons<&'a mut H, T> {
    type Values = HCons<H, T::Values>;

    open spec fn spec_values(&self) -> HCons<H, T::Values> {
        HCons { head: *self.head, tail: self.tail.spec_values() }
    }
}

/// Declares the exhaustive list of slices a state contains.
///
/// Required by [`crate::ParallelRootReducer`] to walk the state's slices and
/// match each one to a reducer. The state must also implement
/// [`HasSlice<T>`] for every slice `T`.
///
/// # Ordering
///
/// The order of slices in `Self::Slices` is observable in one place: it
/// determines the order side events are concatenated in
/// [`crate::ParallelRootReducer`] output. The runtime execution order of
/// slice reducers is not constrained.
pub trait StateSlices {
    /// The HList of the slice values, in declaration order.
    type Values;

    /// The HList of mutable slice references this state splits into, in
    /// declaration order.
    type Slices<'s>: HList + SliceRefs<Values = Self::Values> where Self: 's;

    /// The values of the slices of the state, where `spec_obeys_slices`
    /// holds.
    open spec fn spec_slice_values(&self) -> Self::Values {
        arbitrary()
    }

    /// Whether `spec_slice_values` describes `to_slices`. `false` unless an
    /// implementation states and proves it.
    open spec fn spec_obeys_slices() -> bool {
        false
    }

    /// Splits the state into disjoint mutable references to its slices.
    fn to_slices(&mut self) -> (slices: Self::Slices<'_>)
        ensures
            Self::spec_obeys_slices() ==> slices.spec_values() == old(self).spec_slice_values(),
    ;
}

} // verus!
