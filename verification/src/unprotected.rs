//! The [`Unprotected`] reference type.
use core::marker::PhantomData;

use vstd::prelude::*;

use crate::bits::{composed, lemma_composed_decomposed, mark_bits_fit, ptr_of, tag_of};
use crate::marked::{Internal, Marked, MarkedPointer, NonNullable};
use crate::non_null::{non_null_value, MarkedNonNull};
use crate::raw::MarkedPtr;
use crate::shared::Shared;

verus! {

/// A reference to a value loaded from an [`Atomic`][crate::Atomic] that is
/// not actively protected from reclamation.
///
/// `Unprotected` values can not be safely de-referenced under usual
/// circumstances (i.e. other threads can retire and reclaim unlinked records).
/// They do, however, have stronger guarantees than raw (marked) pointers:
/// since they are loaded from [`Atomic`][crate::Atomic] values they must (at
/// least at one point) have been *valid* references. They are never null.
#[derive(Debug)]
pub struct Unprotected<T, R, const N: usize> {
    inner: MarkedNonNull<T, N>,
    _marker: PhantomData<R>,
}

impl<T, R, const N: usize> View for Unprotected<T, R, N> {
    type V = usize;

    /// The numeric representation (address and tag) of the reference.
    closed spec fn view(&self) -> usize {
        self.inner@
    }
}

impl<T, R, const N: usize> Clone for Unprotected<T, R, N> {
    fn clone(&self) -> (copy: Self)
        ensures
            copy == *self,
    {
        *self
    }
}

impl<T, R, const N: usize> Copy for Unprotected<T, R, N> {
}

impl<T, R, const N: usize> Unprotected<T, R, N> {
    /// Wraps a non-null marked pointer.
    pub(crate) fn from_inner(inner: MarkedNonNull<T, N>) -> (unprotected: Self)
        ensures
            unprotected@ == inner@,
    {
        Self { inner, _marker: PhantomData }
    }

    /// Creates a `None` variant for an [`Option<Self>`][Option].
    ///
    /// This is useful for calls to `store`, `swap` or `compare_exchange_*`,
    /// when a `null` pointer needs to be inserted.
    pub fn none() -> (none: Option<Self>)
        ensures
            none is None,
    {
        None
    }

    /// Creates an unmarked [`Null`][Marked::Null] variant for a
    /// [`Marked<Self>`][Marked].
    pub fn null() -> (null: Marked<Self>)
        ensures
            null == Marked::<Self>::Null(0),
    {
        Marked::Null(0)
    }

    /// Creates a marked [`Null`][Marked::Null] variant for a
    /// [`Marked<Self>`][Marked] with the given `tag`.
    pub fn null_with_tag(tag: usize) -> (null: Marked<Self>)
        ensures
            null == Marked::<Self>::Null(tag),
    {
        Marked::Null(tag)
    }

    /// Consumes the given `Self` and returns the same value but with the
    /// specified `tag`.
    pub fn with_tag(unprotected: Self, tag: usize) -> (tagged: Self)
        requires
            mark_bits_fit::<T>(N as nat),
        ensures
            tagged@ == composed(ptr_of(unprotected@ as nat, N as nat), tag as nat, N as nat),
    {
        Self::from_inner(unprotected.inner.with_tag(tag))
    }

    /// Decomposes the given `Self`, returning the original value without its
    /// previous tag and the separated tag.
    pub fn decompose(unprotected: Self) -> (parts: (Self, usize))
        requires
            mark_bits_fit::<T>(N as nat),
        ensures
            parts.0@ == ptr_of(unprotected@ as nat, N as nat),
            parts.1 == tag_of(unprotected@ as nat, N as nat),
    {
        let tag = unprotected.inner.decompose_tag();
        (Self::from_inner(unprotected.inner.clear_tag()), tag)
    }

    /// Consumes `unprotected` and returns the inner non-null marked pointer.
    pub fn into_marked_non_null(unprotected: Self) -> (marked: MarkedNonNull<T, N>)
        ensures
            marked@ == unprotected@,
    {
        unprotected.inner
    }

    /// Converts the `Unprotected` into a [`Shared`] reference with arbitrary
    /// lifetime.
    ///
    /// The returned reference is not in fact protected and could be reclaimed
    /// by other threads, so the caller has to ensure no concurrent reclamation
    /// is possible before it is de-referenced.
    pub fn into_shared<'a>(unprotected: Self) -> (shared: Shared<'a, T, R, N>)
        ensures
            shared@ == unprotected@,
    {
        Shared::from_inner(unprotected.inner)
    }

    /// Casts the [`Unprotected`] to a reference to a different type.
    pub fn cast<U>(unprotected: Self) -> (cast: Unprotected<U, R, N>)
        requires
            non_null_value::<U, N>(unprotected@),
        ensures
            cast@ == unprotected@,
    {
        Unprotected::from_inner(unprotected.inner.cast())
    }
}

impl<T, R, const N: usize> NonNullable for Unprotected<T, R, N> {
}

impl<T, R, const N: usize> Internal for Unprotected<T, R, N> {
}

impl<T, R, const N: usize> MarkedPointer<N> for Unprotected<T, R, N> {
    type Item = T;

    open spec fn marked_value(&self) -> usize {
        self@
    }

    open spec fn admits(marked: usize) -> bool {
        ptr_of(marked as nat, N as nat) != 0
    }

    open spec fn from_marked_value(marked: usize) -> usize {
        marked
    }

    proof fn lemma_from_marked_value(marked: usize) {
    }

    fn as_marked_ptr(&self) -> (marked: MarkedPtr<T, N>) {
        self.inner.into_marked_ptr()
    }

    fn decompose_tag(&self) -> (tag: usize) {
        self.inner.decompose_tag()
    }

    fn clear_tag(self) -> (cleared: Self) {
        Self::from_inner(self.inner.clear_tag())
    }

    fn into_marked_ptr(self) -> (marked: MarkedPtr<T, N>) {
        self.inner.into_marked_ptr()
    }

    fn from_marked_ptr(marked: MarkedPtr<T, N>) -> (ptr: Self) {
        proof {
            lemma_composed_decomposed(marked@ as nat, N as nat);
        }
        Self::from_inner(MarkedNonNull::new_unchecked(marked))
    }

    fn from_marked_non_null(marked: MarkedNonNull<T, N>) -> (ptr: Self) {
        Self::from_inner(marked)
    }
}

impl<T, R, const N: usize> PartialEq for Unprotected<T, R, N> {
    /// Two references are equal if their addresses and tags are.
    fn eq(&self, other: &Self) -> (equal: bool) {
        self.inner == other.inner
    }
}

impl<T, R, const N: usize> vstd::std_specs::cmp::PartialEqSpecImpl for Unprotected<T, R, N> {
    open spec fn obeys_eq_spec() -> bool {
        true
    }

    open spec fn eq_spec(&self, other: &Self) -> bool {
        self@ == other@
    }
}

impl<T, R, const N: usize> Eq for Unprotected<T, R, N> {
}

} // verus!
