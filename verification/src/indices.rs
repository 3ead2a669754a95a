//! Type-level positional witnesses used to disambiguate impls of recursive
//! HList traits.
//!
//! These types encode the position of an element in an HList as a Peano
//! numeral (`Here` = 0, `There<Here>` = 1, `There<There<Here>>` = 2, ...).
//! The compiler infers them during trait resolution: they are never written
//! by the user, but appear in the concrete types of values like
//! `ParallelRootReducer<L, E, Indices>`.

use std::marker::PhantomData;
use vstd::prelude::*;

verus! {

/// Position witness: "target is at the head of the current HCons".
///
/// Equivalent to Peano zero.
pub struct Here;

/// Position witness: "target is somewhere inside the tail of the current
/// HCons". Equivalent to the Peano successor of `I`.
pub struct There<I> {
    _marker: PhantomData<I>,
}

} // verus!
