//! The [`Unlinked`] reference type.
use core::marker::PhantomData;

use vstd::prelude::*;

use crate::bits::{composed, lemma_composed_decomposed, mark_bits_fit, ptr_of, tag_of};
use crate::marked::{Internal, Marked, MarkedPointer, NonNullable};
use crate::non_null::{non_null_value, MarkedNonNull};
use crate::raw::MarkedPtr;
use crate::reclaim::{GlobalReclaim, Reclaim};
use crate::unprotected::Unprotected;

verus! {

/// A reference to a value that has been removed from its previous location
/// in memory and is hence no longer reachable by other threads.
///
/// `Unlinked` values are the result of (successful) atomic *swap* or
/// *compare-and-swap* operations on [`Atomic`][crate::Atomic] values. They are
/// move-only types, but they don't have full ownership semantics, either.
/// Dropping an `Unlinked` value without explicitly retiring it almost
/// certainly results in a memory leak. They are never null.
#[must_use]
#[derive(Debug)]
pub struct Unlinked<T, R, const N: usize> {
    inner: MarkedNonNull<T, N>,
    _marker: PhantomData<(T, R)>,
}

impl<T, R, const N: usize> View for Unlinked<T, R, N> {
    type V = usize;

    /// The numeric representation (address and tag) of the reference.
    closed spec fn view(&self) -> usize {
        self.inner@
    }
}

impl<T, R, const N: usize> Unlinked<T, R, N> {
    /// Wraps a non-null marked pointer.
    pub(crate) fn from_inner(inner: MarkedNonNull<T, N>) -> (unlinked: Self)
        ensures
            unlinked@ == inner@,
    {
        Self { inner, _marker: PhantomData }
    }

    /// Creates a `None` variant for an [`Option<Self>`][Option].
    ///
    /// This is useful for calls to `store`, `swap` or `compare_exchange_*`,
    /// when a `null` pointer needs to be inserted.
    pub fn none() -> (none: Option<Self>)
        ensures
            none is None,
    {
        None
    }

    /// Creates an unmarked [`Null`][Marked::Null] variant for a
    /// [`Marked<Self>`][Marked].
    pub fn null() -> (null: Marked<Self>)
        ensures
            null == Marked::<Self>::Null(0),
    {
        Marked::Null(0)
    }

    /// Creates a marked [`Null`][Marked::Null] variant for a
    /// [`Marked<Self>`][Marked] with the given `tag`.
    pub fn null_with_tag(tag: usize) -> (null: Marked<Self>)
        ensures
            null == Marked::<Self>::Null(tag),
    {
        Marked::Null(tag)
    }

    /// Consumes the given `Self` and returns the same value but with the
    /// specified `tag`.
    pub fn with_tag(unlinked: Self, tag: usize) -> (tagged: Self)
        requires
            mark_bits_fit::<T>(N as nat),
        ensures
            tagged@ == composed(ptr_of(unlinked@ as nat, N as nat), tag as nat, N as nat),
    {
        Self::from_inner(unlinked.inner.with_tag(tag))
    }

    /// Decomposes the given `Self`, returning the original value without its
    /// previous tag and the separated tag.
    pub fn decompose(unlinked: Self) -> (parts: (Self, usize))
        requires
            mark_bits_fit::<T>(N as nat),
        ensures
            parts.0@ == ptr_of(unlinked@ as nat, N as nat),
            parts.1 == tag_of(unlinked@ as nat, N as nat),
    {
        let tag = unlinked.inner.decompose_tag();
        (Self::from_inner(unlinked.inner.clear_tag()), tag)
    }

    /// Consumes `unlinked` and returns the inner non-null marked pointer.
    pub fn into_marked_non_null(unlinked: Self) -> (marked: MarkedNonNull<T, N>)
        ensures
            marked@ == unlinked@,
    {
        unlinked.inner
    }

    /// Converts the `Unlinked` reference into an [`Unprotected`].
    pub fn into_unprotected(unlinked: Self) -> (unprotected: Unprotected<T, R, N>)
        ensures
            unprotected@ == unlinked@,
    {
        Unprotected::from_inner(unlinked.inner)
    }

    /// Casts the [`Unlinked`] to a reference to a different type; the caller
    /// has to ensure the cast is valid.
    pub fn cast<U>(unlinked: Self) -> (cast: Unlinked<U, R, N>)
        requires
            non_null_value::<U, N>(unlinked@),
        ensures
            cast@ == unlinked@,
    {
        Unlinked::from_inner(unlinked.inner.cast())
    }
}

impl<T, R: Reclaim, const N: usize> Unlinked<T, R, N> {
    /// Retires the record by calling [`Reclaim::retire_local`] of the
    /// reclamation scheme `R`.
    ///
    /// The same caveats as with [`Reclaim::retire_local`] apply: no thread
    /// may be able to acquire a *new* reference to the record.
    pub fn retire_local(self, local: &R::Local) where T: 'static {
        R::retire_local(local, self)
    }

    /// Retires the record by calling [`Reclaim::retire_local_unchecked`] of
    /// the reclamation scheme `R`.
    pub fn retire_local_unchecked(self, local: &R::Local) {
        R::retire_local_unchecked(local, self)
    }
}

impl<T, R: GlobalReclaim, const N: usize> Unlinked<T, R, N> {
    /// Retires the record by calling [`GlobalReclaim::retire`] of the
    /// reclamation scheme `R`.
    pub fn retire(self) where T: 'static {
        R::retire(self)
    }

    /// Retires the record by calling [`GlobalReclaim::retire_unchecked`] of
    /// the reclamation scheme `R`.
    pub fn retire_unchecked(self) {
        R::retire_unchecked(self)
    }
}

impl<T, R, const N: usize> NonNullable for Unlinked<T, R, N> {
}

impl<T, R, const N: usize> Internal for Unlinked<T, R, N> {
}

impl<T, R, const N: usize> MarkedPointer<N> for Unlinked<T, R, N> {
    type Item = T;

    open spec fn marked_value(&self) -> usize {
        self@
    }

    open spec fn admits(marked: usize) -> bool {
        ptr_of(marked as nat, N as nat) != 0
    }

    open spec fn from_marked_value(marked: usize) -> usize {
        marked
    }

    proof fn lemma_from_marked_value(marked: usize) {
    }

    fn as_marked_ptr(&self) -> (marked: MarkedPtr<T, N>) {
        self.inner.into_marked_ptr()
    }

    fn decompose_tag(&self) -> (tag: usize) {
        self.inner.decompose_tag()
    }

    fn clear_tag(self) -> (cleared: Self) {
        Self::from_inner(self.inner.clear_tag())
    }

    fn into_marked_ptr(self) -> (marked: MarkedPtr<T, N>) {
        self.inner.into_marked_ptr()
    }

    fn from_marked_ptr(marked: MarkedPtr<T, N>) -> (ptr: Self) {
        proof {
            lemma_composed_decomposed(marked@ as nat, N as nat);
        }
        Self::from_inner(MarkedNonNull::new_unchecked(marked))
    }

    fn from_marked_non_null(marked: MarkedNonNull<T, N>) -> (ptr: Self) {
        Self::from_inner(marked)
    }
}

impl<T, R, const N: usize> PartialEq for Unlinked<T, R, N> {
    /// Two references are equal if their addresses and tags are.
    fn eq(&self, other: &Self) -> (equal: bool) {
        self.inner == other.inner
    }
}

impl<T, R, const N: usize> vstd::std_specs::cmp::PartialEqSpecImpl for Unlinked<T, R, N> {
    open spec fn obeys_eq_spec() -> bool {
        true
    }

    open spec fn eq_spec(&self, other: &Self) -> bool {
        self@ == other@
    }
}

impl<T, R, const N: usize> Eq for Unlinked<T, R, N> {
}

} // verus!
