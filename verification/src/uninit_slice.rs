//! Pairs of types whose uninitialised storage is interchangeable.

use vstd::layout::{align_of, size_of};
use vstd::prelude::*;

verus! {

/// `Self` has the size and the alignment of `T`, so a run of empty slots
/// made for one serves the other.
///
/// Verified code proves the claim where it implements the trait. Code that
/// is not verified implements `same_layout` with an empty body, and then
/// vouches for the claim itself.
pub trait EqSizeAlign<T>: Sized {
    /// The proof that the two layouts agree.
    proof fn same_layout()
        ensures
            size_of::<Self>() == size_of::<T>(),
            align_of::<Self>() == align_of::<T>(),
    ;
}

/// Shared references to sized values are all laid out like one address.
impl<'a, 'b, U, V> EqSizeAlign<&'a U> for &'b V {
    proof fn same_layout() {
        broadcast use
            vstd::layout::layout_of_references_and_pointers,
            vstd::layout::layout_of_references_and_pointers_for_sized_types,
        ;
    }
}

/// An exclusive reference is laid out the same whatever its lifetime.
impl<'a, 'b, V: ?Sized> EqSizeAlign<&'a mut V> for &'b mut V {
    proof fn same_layout() {
    }
}

/// A string slice is laid out the same whatever its lifetime.
impl<'a, 'b> EqSizeAlign<&'a str> for &'b str {
    proof fn same_layout() {
    }
}

} // verus!
