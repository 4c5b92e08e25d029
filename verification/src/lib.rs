//! Keeping the storage of an emptied vector for elements of another type.
//!
//! A vector that has been emptied still owns its storage. [`EmptyVec`] holds
//! on to that storage without holding on to the element type's lifetimes, so
//! that the next vector, of a type laid out the same way, starts with the
//! capacity of the last one. Which types are laid out the same way is a
//! matter of proof: see [`uninit_slice::EqSizeAlign`].
//!
//! [`erased`] describes the same exchange for a handle that forgets the
//! element type altogether and keeps its layout as numbers.

use crate::uninit_slice::EqSizeAlign;
use vstd::layout::{align_of, size_of};
use vstd::prelude::*;

pub mod erased;
pub mod layout;
pub mod uninit_slice;

verus! {

/// Conversion of a collection into its emptied form.
pub trait Clear<Cleared>: Sized {
    /// What holds of a collection and its emptied form. An implementation
    /// that promises something says so here.
    open spec fn cleared(self, emptied: Cleared) -> bool {
        true
    }

    fn clear(self) -> (emptied: Cleared)
        ensures
            self.cleared(emptied),
    ;
}

/// The storage of an emptied vector, kept for elements of type `T`.
pub struct EmptyVec<T> {
    storage: Vec<T>,
}

impl<T> View for EmptyVec<T> {
    type V = Seq<T>;

    /// The elements in the storage. There are none.
    closed spec fn view(&self) -> Seq<T> {
        self.storage@
    }
}

/// Maps every item to nothing.
fn no_item<T, U>(item: T) -> (none: Option<U>)
    ensures
        none is None,
{
    None
}

/// Passes what a vector yields through [`no_item`], for a target type that
/// is laid out as the items are.
///
/// Trusted: `Iterator::filter_map` of std. Nothing is claimed of the
/// result.
#[verifier::external_body]
fn without_items<T, U>(items: std::vec::IntoIter<T>) -> impl Iterator<Item = U>
    requires
        size_of::<T>() == size_of::<U>(),
        align_of::<T>() == align_of::<U>(),
{
    items.filter_map(no_item::<T, U>)
}

/// Gathers what an iterator yields into a vector.
///
/// Trusted: `Iterator::collect` of std. Nothing is claimed of the result.
/// Where the iterator draws on a vector whose elements are laid out as the
/// items are, std gathers the items in the storage of that vector instead
/// of allocating. It documents that without promising it; safe code has
/// no other way to move a vector's storage to another element type.
#[verifier::external_body]
fn gather<U, I: Iterator<Item = U>>(items: I) -> Vec<U> {
    items.collect()
}

impl<T> EmptyVec<T> {
    #[verifier::type_invariant]
    spec fn inv(self) -> bool {
        self.storage@.len() == 0
    }

    /// Storage for no element at all.
    pub fn new() -> (empty: Self)
        ensures
            empty@ == Seq::<T>::empty(),
    {
        EmptyVec { storage: Vec::new() }
    }

    /// Storage for at least `capacity` elements.
    pub fn with_capacity(capacity: usize) -> (empty: Self)
        requires
            crate::layout::fits(size_of::<T>(), capacity as nat),
        ensures
            empty@ == Seq::<T>::empty(),
    {
        EmptyVec { storage: Vec::with_capacity(capacity) }
    }

    /// Hands the storage out as a vector without elements.
    pub fn to_vec(self) -> (vec: Vec<T>)
        ensures
            vec@ == self@,
            vec@.len() == 0,
    {
        proof {
            use_type_invariant(&self);
        }
        self.storage
    }
}

impl<T> Default for EmptyVec<T> {
    fn default() -> (empty: Self)
        ensures
            empty@ == Seq::<T>::empty(),
    {
        Self::new()
    }
}

impl<T, U: EqSizeAlign<T>> Clear<EmptyVec<U>> for Vec<T> {
    /// The emptied form holds no element.
    open spec fn cleared(self, emptied: EmptyVec<U>) -> bool {
        emptied@ == Seq::<U>::empty()
    }

    /// Drops the elements, whatever their number, and keeps the storage
    /// for elements of type `U`.
    ///
    /// The storage changes its type inside std. Nothing is assumed of what
    /// std hands back: the vector is emptied once more, which costs
    /// nothing where it is empty already.
    fn clear(self) -> EmptyVec<U> {
        let mut vec = self;
        Vec::clear(&mut vec);
        proof {
            U::same_layout();
        }
        let mut storage: Vec<U> = gather(without_items::<T, U>(vec.into_iter()));
        Vec::clear(&mut storage);
        EmptyVec { storage }
    }
}

} // verus!
