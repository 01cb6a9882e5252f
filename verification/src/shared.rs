//! The [`Shared`] reference type.
use core::marker::PhantomData;

use vstd::prelude::*;

use crate::bits::{composed, lemma_composed_decomposed, mark_bits_fit, ptr_of, tag_of};
use crate::marked::{Internal, Marked, MarkedPointer, NonNullable};
use crate::non_null::{non_null_value, MarkedNonNull};
use crate::raw::MarkedPtr;
use crate::unprotected::Unprotected;

verus! {

/// A shared reference to a value that is actively protected from reclamation
/// by other threads.
///
/// `Shared` values have similar semantics to shared references (`&'g T`), i.e.
/// they can be trivially copied and cloned. However, they do retain potential
/// mark bits of the atomic value from which they were originally read. They
/// are also usually borrowed from guard values implementing the
/// [`Protect`][crate::Protect] trait. They are never null.
#[derive(Debug)]
pub struct Shared<'g, T, R, const N: usize> {
    inner: MarkedNonNull<T, N>,
    _marker: PhantomData<(&'g T, R)>,
}

impl<'g, T, R, const N: usize> View for Shared<'g, T, R, N> {
    type V = usize;

    /// The numeric representation (address and tag) of the reference.
    closed spec fn view(&self) -> usize {
        self.inner@
    }
}

impl<'g, T, R, const N: usize> Clone for Shared<'g, T, R, N> {
    fn clone(&self) -> (copy: Self)
        ensures
            copy == *self,
    {
        *self
    }
}

impl<'g, T, R, const N: usize> Copy for Shared<'g, T, R, N> {
}

impl<'g, T, R, const N: usize> Shared<'g, T, R, N> {
    /// Wraps a non-null marked pointer.
    pub(crate) fn from_inner(inner: MarkedNonNull<T, N>) -> (shared: Self)
        ensures
            shared@ == inner@,
    {
        Self { inner, _marker: PhantomData }
    }

    /// Creates a `None` variant for an [`Option<Self>`][Option].
    ///
    /// This is useful for calls to `store`, `swap` or `compare_exchange_*`,
    /// when a `null` pointer needs to be inserted.
    pub fn none() -> (none: Option<Self>)
        ensures
            none is None,
    {
        None
    }

    /// Creates an unmarked [`Null`][Marked::Null] variant for a
    /// [`Marked<Self>`][Marked].
    pub fn null() -> (null: Marked<Self>)
        ensures
            null == Marked::<Self>::Null(0),
    {
        Marked::Null(0)
    }

    /// Creates a marked [`Null`][Marked::Null] variant for a
    /// [`Marked<Self>`][Marked] with the given `tag`.
    pub fn null_with_tag(tag: usize) -> (null: Marked<Self>)
        ensures
            null == Marked::<Self>::Null(tag),
    {
        Marked::Null(tag)
    }

    /// Consumes the given `Self` and returns the same value but with the
    /// specified `tag`.
    pub fn with_tag(shared: Self, tag: usize) -> (tagged: Self)
        requires
            mark_bits_fit::<T>(N as nat),
        ensures
            tagged@ == composed(ptr_of(shared@ as nat, N as nat), tag as nat, N as nat),
    {
        Self::from_inner(shared.inner.with_tag(tag))
    }

    /// Decomposes the given `Self`, returning the original value without its
    /// previous tag and the separated tag.
    pub fn decompose(shared: Self) -> (parts: (Self, usize))
        requires
            mark_bits_fit::<T>(N as nat),
        ensures
            parts.0@ == ptr_of(shared@ as nat, N as nat),
            parts.1 == tag_of(shared@ as nat, N as nat),
    {
        let tag = shared.inner.decompose_tag();
        (Self::from_inner(shared.inner.clear_tag()), tag)
    }

    /// Consumes `shared` and returns the inner non-null marked pointer.
    pub fn into_marked_non_null(shared: Self) -> (marked: MarkedNonNull<T, N>)
        ensures
            marked@ == shared@,
    {
        shared.inner
    }

    /// Converts the `Shared` reference into an [`Unprotected`].
    pub fn into_unprotected(shared: Self) -> (unprotected: Unprotected<T, R, N>)
        ensures
            unprotected@ == shared@,
    {
        Unprotected::from_inner(shared.inner)
    }
}

impl<'g, T, R, const N: usize> NonNullable for Shared<'g, T, R, N> {
}

impl<'g, T, R, const N: usize> Internal for Shared<'g, T, R, N> {
}

impl<'g, T, R, const N: usize> MarkedPointer<N> for Shared<'g, T, R, N> {
    type Item = T;

    open spec fn marked_value(&self) -> usize {
        self@
    }

    open spec fn admits(marked: usize) -> bool {
        ptr_of(marked as nat, N as nat) != 0
    }

    open spec fn from_marked_value(marked: usize) -> usize {
        marked
    }

    proof fn lemma_from_marked_value(marked: usize) {
    }

    fn as_marked_ptr(&self) -> (marked: MarkedPtr<T, N>) {
        self.inner.into_marked_ptr()
    }

    fn decompose_tag(&self) -> (tag: usize) {
        self.inner.decompose_tag()
    }

    fn clear_tag(self) -> (cleared: Self) {
        Self::from_inner(self.inner.clear_tag())
    }

    fn into_marked_ptr(self) -> (marked: MarkedPtr<T, N>) {
        self.inner.into_marked_ptr()
    }

    fn from_marked_ptr(marked: MarkedPtr<T, N>) -> (ptr: Self) {
        proof {
            lemma_composed_decomposed(marked@ as nat, N as nat);
        }
        Self::from_inner(MarkedNonNull::new_unchecked(marked))
    }

    fn from_marked_non_null(marked: MarkedNonNull<T, N>) -> (ptr: Self) {
        Self::from_inner(marked)
    }
}

} // verus!
