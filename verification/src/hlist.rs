//! Minimal HList (heterogeneous list) machinery.
//!
//! Used by the root reducers to hold their slice reducers as a recursive
//! type, and by [`crate::StateSlices`] to describe a state's slices.

use vstd::prelude::*;

verus! {

/// The empty list.
#[derive(Debug, PartialEq, Eq, Clone, Copy, Default)]
pub struct HNil;

/// A list made of a first element `head` and the rest of the list `tail`.
#[derive(Debug, PartialEq, Eq, Clone)]
pub struct HCons<H, T> {
    pub head: H,
    pub tail: T,
}

/// Marker for the HList types: [`HNil`] and [`HCons`] of an HList.
pub trait HList {

}

impl HList for HNil {

}

impl<H, T: HList> HList for HCons<H, T> {

}


/// Converts a tuple into the HList of its elements, in tuple order.
pub trait IntoHList: Sized {
    /// The HList type holding the tuple's elements.
    type Output: HList;

    /// The HList of the tuple's elements.
    spec fn spec_into_hlist(self) -> Self::Output;

    /// Converts the tuple into the HList of its elements.
    fn into_hlist(self) -> (list: Self::Output)
        ensures
            list == self.spec_into_hlist(),
    ;
}

impl<R0> IntoHList for (R0,) {
    type Output = HCons<R0, HNil>;

    open spec fn spec_into_hlist(self) -> Self::Output {
        HCons { head: self.0, tail: HNil }
    }

    fn into_hlist(self) -> (list: Self::Output) {
        HCons { head: self.0, tail: HNil }
    }
}

impl<R0, R1> IntoHList for (R0, R1) {
    type Output = HCons<R0, HCons<R1, HNil>>;

    open spec fn spec_into_hlist(self) -> Self::Output {
        HCons { head: self.0, tail: HCons { head: self.1, tail: HNil } }
    }

    fn into_hlist(self) -> (list: Self::Output) {
        HCons { head: self.0, tail: HCons { head: self.1, tail: HNil } }
    }
}

impl<R0, R1, R2> IntoHList for (R0, R1, R2) {
    type Output = HCons<R0, HCons<R1, HCons<R2, HNil>>>;

    open spec fn spec_into_hlist(self) -> Self::Output {
        HCons { head: self.0, tail: HCons { head: self.1, tail: HCons { head: self.2, tail: HNil } } }
    }

    fn into_hlist(self) -> (list: Self::Output) {
        HCons { head: self.0, tail: HCons { head: self.1, tail: HCons { head: self.2, tail: HNil } } }
    }
}

impl<R0, R1, R2, R3> IntoHList for (R0, R1, R2, R3) {
    type Output = HCons<R0, HCons<R1, HCons<R2, HCons<R3, HNil>>>>;

    open spec fn spec_into_hlist(self) -> Self::Output {
        HCons { head: self.0, tail: HCons { head: self.1, tail: HCons { head: self.2, tail: HCons { head: self.3, tail: HNil } } } }
    }

    fn into_hlist(self) -> (list: Self::Output) {
        HCons { head: self.0, tail: HCons { head: self.1, tail: HCons { head: self.2, tail: HCons { head: self.3, tail: HNil } } } }
    }
}

impl<R0, R1, R2, R3, R4> IntoHList for (R0, R1, R2, R3, R4) {
    type Output = HCons<R0, HCons<R1, HCons<R2, HCons<R3, HCons<R4, HNil>>>>>;

    open spec fn spec_into_hlist(self) -> Self::Output {
        HCons { head: self.0, tail: HCons { head: self.1, tail: HCons { head: self.2, tail: HCons { head: self.3, tail: HCons { head: self.4, tail: HNil } } } } }
    }

    fn into_hlist(self) -> (list: Self::Output) {
        HCons { head: self.0, tail: HCons { head: self.1, tail: HCons { head: self.2, tail: HCons { head: self.3, tail: HCons { head: self.4, tail: HNil } } } } }
    }
}

impl<R0, R1, R2, R3, R4, R5> IntoHList for (R0, R1, R2, R3, R4, R5) {
    type Output = HCons<R0, HCons<R1, HCons<R2, HCons<R3, HCons<R4, HCons<R5, HNil>>>>>>;

    open spec fn spec_into_hlist(self) -> Self::Output {
        HCons { head: self.0, tail: HCons { head: self.1, tail: HCons { head: self.2, tail: HCons { head: self.3, tail: HCons { head: self.4, tail: HCons { head: self.5, tail: HNil } } } } } }
    }

    fn into_hlist(self) -> (list: Self::Output) {
        HCons { head: self.0, tail: HCons { head: self.1, tail: HCons { head: self.2, tail: HCons { head: self.3, tail: HCons { head: self.4, tail: HCons { head: self.5, tail: HNil } } } } } }
    }
}

impl<R0, R1, R2, R3, R4, R5, R6> IntoHList for (R0, R1, R2, R3, R4, R5, R6) {
    type Output = HCons<R0, HCons<R1, HCons<R2, HCons<R3, HCons<R4, HCons<R5, HCons<R6, HNil>>>>>>>;

    open spec fn spec_into_hlist(self) -> Self::Output {
        HCons { head: self.0, tail: HCons { head: self.1, tail: HCons { head: self.2, tail: HCons { head: self.3, tail: HCons { head: self.4, tail: HCons { head: self.5, tail: HCons { head: self.6, tail: HNil } } } } } } }
    }

    fn into_hlist(self) -> (list: Self::Output) {
        HCons { head: self.0, tail: HCons { head: self.1, tail: HCons { head: self.2, tail: HCons { head: self.3, tail: HCons { head: self.4, tail: HCons { head: self.5, tail: HCons { head: self.6, tail: HNil } } } } } } }
    }
}

impl<R0, R1, R2, R3, R4, R5, R6, R7> IntoHList for (R0, R1, R2, R3, R4, R5, R6, R7) {
    type Output = HCons<R0, HCons<R1, HCons<R2, HCons<R3, HCons<R4, HCons<R5, HCons<R6, HCons<R7, HNil>>>>>>>>;

    open spec fn spec_into_hlist(self) -> Self::Output {
        HCons { head: self.0, tail: HCons { head: self.1, tail: HCons { head: self.2, tail: HCons { head: self.3, tail: HCons { head: self.4, tail: HCons { head: self.5, tail: HCons { head: self.6, tail: HCons { head: self.7, tail: HNil } } } } } } } }
    }

    fn into_hlist(self) -> (list: Self::Output) {
        HCons { head: self.0, tail: HCons { head: self.1, tail: HCons { head: self.2, tail: HCons { head: self.3, tail: HCons { head: self.4, tail: HCons { head: self.5, tail: HCons { head: self.6, tail: HCons { head: self.7, tail: HNil } } } } } } } }
    }
}

impl<R0, R1, R2, R3, R4, R5, R6, R7, R8> IntoHList for (R0, R1, R2, R3, R4, R5, R6, R7, R8) {
    type Output = HCons<R0, HCons<R1, HCons<R2, HCons<R3, HCons<R4, HCons<R5, HCons<R6, HCons<R7, HCons<R8, HNil>>>>>>>>>;

    open spec fn spec_into_hlist(self) -> Self::Output {
        HCons { head: self.0, tail: HCons { head: self.1, tail: HCons { head: self.2, tail: HCons { head: self.3, tail: HCons { head: self.4, tail: HCons { head: self.5, tail: HCons { head: self.6, tail: HCons { head: self.7, tail: HCons { head: self.8, tail: HNil } } } } } } } } }
    }

    fn into_hlist(self) -> (list: Self::Output) {
        HCons { head: self.0, tail: HCons { head: self.1, tail: HCons { head: self.2, tail: HCons { head: self.3, tail: HCons { head: self.4, tail: HCons { head: self.5, tail: HCons { head: self.6, tail: HCons { head: self.7, tail: HCons { head: self.8, tail: HNil } } } } } } } } }
    }
}

impl<R0, R1, R2, R3, R4, R5, R6, R7, R8, R9> IntoHList for (R0, R1, R2, R3, R4, R5, R6, R7, R8, R9) {
    type Output = HCons<R0, HCons<R1, HCons<R2, HCons<R3, HCons<R4, HCons<R5, HCons<R6, HCons<R7, HCons<R8, HCons<R9, HNil>>>>>>>>>>;

    open spec fn spec_into_hlist(self) -> Self::Output {
        HCons { head: self.0, tail: HCons { head: self.1, tail: HCons { head: self.2, tail: HCons { head: self.3, tail: HCons { head: self.4, tail: HCons { head: self.5, tail: HCons { head: self.6, tail: HCons { head: self.7, tail: HCons { head: self.8, tail: HCons { head: self.9, tail: HNil } } } } } } } } } }
    }

    fn into_hlist(self) -> (list: Self::Output) {
        HCons { head: self.0, tail: HCons { head: self.1, tail: HCons { head: self.2, tail: HCons { head: self.3, tail: HCons { head: self.4, tail: HCons { head: self.5, tail: HCons { head: self.6, tail: HCons { head: self.7, tail: HCons { head: self.8, tail: HCons { head: self.9, tail: HNil } } } } } } } } } }
    }
}

impl<R0, R1, R2, R3, R4, R5, R6, R7, R8, R9, R10> IntoHList for (R0, R1, R2, R3, R4, R5, R6, R7, R8, R9, R10) {
    type Output = HCons<R0, HCons<R1, HCons<R2, HCons<R3, HCons<R4, HCons<R5, HCons<R6, HCons<R7, HCons<R8, HCons<R9, HCons<R10, HNil>>>>>>>>>>>;

    open spec fn spec_into_hlist(self) -> Self::Output {
        HCons { head: self.0, tail: HCons { head: self.1, tail: HCons { head: self.2, tail: HCons { head: self.3, tail: HCons { head: self.4, tail: HCons { head: self.5, tail: HCons { head: self.6, tail: HCons { head: self.7, tail: HCons { head: self.8, tail: HCons { head: self.9, tail: HCons { head: self.10, tail: HNil } } } } } } } } } } }
    }

    fn into_hlist(self) -> (list: Self::Output) {
        HCons { head: self.0, tail: HCons { head: self.1, tail: HCons { head: self.2, tail: HCons { head: self.3, tail: HCons { head: self.4, tail: HCons { head: self.5, tail: HCons { head: self.6, tail: HCons { head: self.7, tail: HCons { head: self.8, tail: HCons { head: self.9, tail: HCons { head: self.10, tail: HNil } } } } } } } } } } }
    }
}

impl<R0, R1, R2, R3, R4, R5, R6, R7, R8, R9, R10, R11> IntoHList for (R0, R1, R2, R3, R4, R5, R6, R7, R8, R9, R10, R11) {
    type Output = HCons<R0, HCons<R1, HCons<R2, HCons<R3, HCons<R4, HCons<R5, HCons<R6, HCons<R7, HCons<R8, HCons<R9, HCons<R10, HCons<R11, HNil>>>>>>>>>>>>;

    open spec fn spec_into_hlist(self) -> Self::Output {
        HCons { head: self.0, tail: HCons { head: self.1, tail: HCons { head: self.2, tail: HCons { head: self.3, tail: HCons { head: self.4, tail: HCons { head: self.5, tail: HCons { head: self.6, tail: HCons { head: self.7, tail: HCons { head: self.8, tail: HCons { head: self.9, tail: HCons { head: self.10, tail: HCons { head: self.11, tail: HNil } } } } } } } } } } } }
    }

    fn into_hlist(self) -> (list: Self::Output) {
        HCons { head: self.0, tail: HCons { head: self.1, tail: HCons { head: self.2, tail: HCons { head: self.3, tail: HCons { head: self.4, tail: HCons { head: self.5, tail: HCons { head: self.6, tail: HCons { head: self.7, tail: HCons { head: self.8, tail: HCons { head: self.9, tail: HCons { head: self.10, tail: HCons { head: self.11, tail: HNil } } } } } } } } } } } }
    }
}

} // verus!
