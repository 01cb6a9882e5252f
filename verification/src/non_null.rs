//! The non-nullable marked pointer [`MarkedNonNull`].
use core::marker::PhantomData;

use vstd::prelude::*;
use vstd::arithmetic::power2::pow2;
use vstd::layout::{align_of, layout_for_type_is_valid};

use crate::address::address_of;
use crate::bits::{
    self, composed, is_aligned_to, lemma_composed_decomposed, lemma_decompose_composed,
    lemma_tag_fits, lemma_type_aligned, mark_bits_fit, ptr_of, tag_of,
};
use crate::marked::{InvalidNullError, Marked, NonNullable};
use crate::raw::MarkedPtr;

verus! {

/// The numeric representations of a non-null marked pointer to a `T` with `N`
/// mark bits: non-zero, and with a non-zero address part whenever the mark
/// bits fit `T`.
pub open spec fn non_null_value<T, const N: usize>(marked: usize) -> bool {
    &&& marked != 0
    &&& mark_bits_fit::<T>(N as nat) ==> ptr_of(marked as nat, N as nat) != 0
}

/// A non-nullable marked raw pointer type.
///
/// Unlike [`MarkedPtr`] this also **excludes** marked null pointers, whose
/// address part is zero but whose tag is not.
#[derive(Debug, Ord)]
pub struct MarkedNonNull<T, const N: usize> {
    inner: usize,
    _marker: PhantomData<T>,
}

impl<T, const N: usize> View for MarkedNonNull<T, N> {
    type V = usize;

    /// The numeric representation of the pointer, tag included.
    closed spec fn view(&self) -> usize {
        self.inner
    }
}

impl<T, const N: usize> MarkedNonNull<T, N> {
    #[verifier::type_invariant]
    spec fn non_null(self) -> bool {
        non_null_value::<T, N>(self.inner)
    }

    /// The address part of the marked pointer.
    pub open spec fn ptr_spec(self) -> nat {
        ptr_of(self@ as nat, N as nat)
    }

    /// The tag part of the marked pointer.
    pub open spec fn tag_spec(self) -> nat {
        tag_of(self@ as nat, N as nat)
    }

    /// Converts a marked non-null pointer with `M` potential mark bits to the
    /// **same** marked pointer with `N` potential mark bits; requires that
    /// `N >= M` and that the address part with `N` mark bits is not null.
    pub fn convert<const M: usize>(other: MarkedNonNull<T, M>) -> (marked: Self)
        requires
            N >= M,
            non_null_value::<T, N>(other@),
        ensures
            marked@ == other@,
    {
        Self { inner: other.inner, _marker: PhantomData }
    }

    /// Creates a new `MarkedNonNull` from a marked pointer without checking
    /// for `null`: `ptr` may be marked, but must be neither an unmarked nor a
    /// marked null pointer.
    pub fn new_unchecked(ptr: MarkedPtr<T, N>) -> (marked: Self)
        requires
            non_null_value::<T, N>(ptr@),
        ensures
            marked@ == ptr@,
    {
        Self { inner: ptr.into_usize(), _marker: PhantomData }
    }

    /// Creates a new `MarkedNonNull` wrapped in a [`Marked`] if `ptr` is
    /// non-null; a (marked) null pointer is returned as its tag.
    pub fn new(ptr: MarkedPtr<T, N>) -> (marked: Marked<Self>)
        requires
            mark_bits_fit::<T>(N as nat),
        ensures
            ptr.ptr_spec() != 0 ==> (marked matches Marked::Value(p) && p@ == ptr@),
            ptr.ptr_spec() == 0 ==> marked == Marked::<Self>::Null(ptr.tag_spec() as usize),
    {
        let (raw, tag) = ptr.decompose();
        proof {
            lemma_composed_decomposed(ptr@ as nat, N as nat);
        }
        if raw != 0 {
            Marked::Value(Self::new_unchecked(ptr))
        } else {
            Marked::Null(tag)
        }
    }

    /// Converts a marked pointer into a `MarkedNonNull`, failing if the
    /// pointer is null, regardless of its tag.
    pub fn try_from(ptr: MarkedPtr<T, N>) -> (marked: Result<Self, InvalidNullError>)
        requires
            mark_bits_fit::<T>(N as nat),
        ensures
            ptr.ptr_spec() != 0 ==> (marked matches Ok(p) && p@ == ptr@),
            ptr.ptr_spec() == 0 ==> marked is Err,
    {
        let raw = ptr.decompose_ptr();
        proof {
            lemma_composed_decomposed(ptr@ as nat, N as nat);
        }
        if raw == 0 {
            Err(InvalidNullError)
        } else {
            Ok(Self::new_unchecked(ptr))
        }
    }

    /// Creates a new `MarkedNonNull` that is dangling, but well-aligned: its
    /// address is the alignment of `T`.
    pub fn dangling() -> (marked: Self)
        ensures
            marked@ == align_of::<T>(),
            mark_bits_fit::<T>(N as nat) ==> marked.ptr_spec() == align_of::<T>()
                && marked.tag_spec() == 0,
    {
        layout_for_type_is_valid::<T>();
        let align = core::mem::align_of::<T>();
        proof {
            if mark_bits_fit::<T>(N as nat) {
                vstd::arithmetic::div_mod::lemma_mod_self_0(align as int);
                lemma_type_aligned::<T>(align as nat, N as nat);
                lemma_decompose_composed(align as nat, 0, N as nat);
                lemma_tag_fits(0, N as nat);
            }
        }
        Self { inner: align, _marker: PhantomData }
    }

    /// Creates an unmarked pointer to the value behind `reference`.
    pub fn from_ref(reference: &T) -> (marked: Self)
        ensures
            marked@ as nat % align_of::<T>() == 0,
            mark_bits_fit::<T>(N as nat) ==> marked.ptr_spec() == marked@ && marked.tag_spec() == 0,
    {
        let addr = address_of(reference);
        layout_for_type_is_valid::<T>();
        proof {
            if mark_bits_fit::<T>(N as nat) {
                lemma_type_aligned::<T>(addr as nat, N as nat);
                lemma_decompose_composed(addr as nat, 0, N as nat);
                lemma_tag_fits(0, N as nat);
            }
        }
        Self { inner: addr, _marker: PhantomData }
    }

    /// Creates an unmarked pointer to the value behind the mutable `reference`.
    pub fn from_mut(reference: &mut T) -> (marked: Self)
        ensures
            marked@ as nat % align_of::<T>() == 0,
            mark_bits_fit::<T>(N as nat) ==> marked.ptr_spec() == marked@ && marked.tag_spec() == 0,
    {
        Self::from_ref(&*reference)
    }

    /// Converts the pointer to the equivalent [`MarkedPtr`].
    pub fn into_marked_ptr(self) -> (marked: MarkedPtr<T, N>)
        ensures
            marked@ == self@,
            non_null_value::<T, N>(marked@),
    {
        proof {
            use_type_invariant(self);
        }
        MarkedPtr::new(self.inner)
    }

    /// Casts the pointer to a pointer to a different type `U`, keeping its
    /// numeric representation.
    pub fn cast<U>(self) -> (marked: MarkedNonNull<U, N>)
        requires
            non_null_value::<U, N>(self@),
        ensures
            marked@ == self@,
    {
        MarkedNonNull { inner: self.inner, _marker: PhantomData }
    }

    /// Composes a new marked non-null pointer from a non-null address and a
    /// tag value; a tag that does not fit the mark bits is truncated.
    pub fn compose(ptr: usize, tag: usize) -> (marked: Self)
        requires
            ptr != 0,
            mark_bits_fit::<T>(N as nat),
            is_aligned_to(ptr as nat, N as nat),
        ensures
            marked@ == composed(ptr as nat, tag as nat, N as nat),
            marked.ptr_spec() == ptr,
            marked.tag_spec() == tag as nat % pow2(N as nat),
    {
        proof {
            lemma_decompose_composed(ptr as nat, tag as nat, N as nat);
        }
        Self { inner: bits::compose::<T, N>(ptr, tag), _marker: PhantomData }
    }

    /// Decomposes the marked pointer, returning the separated non-null address
    /// and its tag.
    pub fn decompose(self) -> (parts: (usize, usize))
        requires
            mark_bits_fit::<T>(N as nat),
        ensures
            parts.0 == self.ptr_spec(),
            parts.1 == self.tag_spec(),
            parts.0 != 0,
    {
        proof {
            use_type_invariant(self);
        }
        bits::decompose::<T>(self.inner, N)
    }

    /// Decomposes the marked pointer, returning only the separated address.
    pub fn decompose_ptr(self) -> (ptr: usize)
        requires
            mark_bits_fit::<T>(N as nat),
        ensures
            ptr == self.ptr_spec(),
            ptr != 0,
    {
        proof {
            use_type_invariant(self);
        }
        bits::decompose_ptr::<T>(self.inner, N)
    }

    /// Decomposes the marked pointer, returning only the separated non-null
    /// address.
    pub fn decompose_non_null(self) -> (ptr: usize)
        requires
            mark_bits_fit::<T>(N as nat),
        ensures
            ptr == self.ptr_spec(),
            ptr != 0,
    {
        self.decompose_ptr()
    }

    /// Decomposes the marked pointer, returning only the separated tag.
    pub fn decompose_tag(self) -> (tag: usize)
        requires
            mark_bits_fit::<T>(N as nat),
        ensures
            tag == self.tag_spec(),
    {
        bits::decompose_tag::<T>(self.inner, N)
    }

    /// Clears the tag of `self` and returns the same but untagged pointer.
    pub fn clear_tag(self) -> (marked: Self)
        requires
            mark_bits_fit::<T>(N as nat),
        ensures
            marked@ == self.ptr_spec(),
            marked.tag_spec() == 0,
    {
        let ptr = self.decompose_ptr();
        proof {
            lemma_composed_decomposed(self@ as nat, N as nat);
        }
        let marked = Self::compose(ptr, 0);
        proof {
            lemma_tag_fits(0, N as nat);
        }
        marked
    }

    /// Clears the tag of `self` and replaces it with `tag`.
    pub fn with_tag(self, tag: usize) -> (marked: Self)
        requires
            mark_bits_fit::<T>(N as nat),
        ensures
            marked@ == composed(self.ptr_spec(), tag as nat, N as nat),
            marked.ptr_spec() == self.ptr_spec(),
            marked.tag_spec() == tag as nat % pow2(N as nat),
    {
        let ptr = self.decompose_ptr();
        proof {
            lemma_composed_decomposed(self@ as nat, N as nat);
        }
        Self::compose(ptr, tag)
    }
}

impl<T, const N: usize> Clone for MarkedNonNull<T, N> {
    fn clone(&self) -> (copy: Self)
        ensures
            copy == *self,
    {
        *self
    }
}

impl<T, const N: usize> Copy for MarkedNonNull<T, N> {
}

impl<T, const N: usize> NonNullable for MarkedNonNull<T, N> {
}

impl<T, const N: usize> PartialEq for MarkedNonNull<T, N> {
    /// Two marked pointers are equal if their addresses and tags are.
    fn eq(&self, other: &Self) -> (equal: bool) {
        self.inner == other.inner
    }
}

impl<T, const N: usize> vstd::std_specs::cmp::PartialEqSpecImpl for MarkedNonNull<T, N> {
    open spec fn obeys_eq_spec() -> bool {
        true
    }

    open spec fn eq_spec(&self, other: &Self) -> bool {
        self@ == other@
    }
}

impl<T, const N: usize> Eq for MarkedNonNull<T, N> {
}

impl<T, const N: usize> PartialOrd for MarkedNonNull<T, N> {
    /// Marked pointers are ordered by their numeric representation.
    fn partial_cmp(&self, other: &Self) -> (order: Option<core::cmp::Ordering>) {
        if self.inner < other.inner {
            Some(core::cmp::Ordering::Less)
        } else if self.inner == other.inner {
            Some(core::cmp::Ordering::Equal)
        } else {
            Some(core::cmp::Ordering::Greater)
        }
    }
}

impl<T, const N: usize> vstd::std_specs::cmp::PartialOrdSpecImpl for MarkedNonNull<T, N> {
    open spec fn obeys_partial_cmp_spec() -> bool {
        true
    }

    open spec fn partial_cmp_spec(&self, other: &Self) -> Option<core::cmp::Ordering> {
        if self@ < other@ {
            Some(core::cmp::Ordering::Less)
        } else if self@ == other@ {
            Some(core::cmp::Ordering::Equal)
        } else {
            Some(core::cmp::Ordering::Greater)
        }
    }
}

} // verus!
