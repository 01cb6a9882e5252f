//! The nullable marked pointer [`MarkedPtr`].
use core::marker::PhantomData;

use vstd::prelude::*;
use vstd::arithmetic::power2::pow2;
use vstd::layout::layout_for_type_is_valid;

use crate::address::address_of;
use crate::bits::{
    self, composed, is_aligned_to, lemma_composed_decomposed, lemma_decompose_composed,
    lemma_tag_fits, lemma_type_aligned, mark_bits_fit, ptr_of, tag_of,
};

verus! {

/// A raw pointer to a `T` in which up to `N` of the pointer's lower bits can
/// be used to store additional information (the *tag*).
///
/// The pointer is held as its numeric address. Note, that the upper bound for
/// `N` is dictated by the alignment of `T`: a type with an alignment of `8` can
/// have up to `3` mark bits. Operations that separate the tag from the address
/// require that the `N` bits fit.
#[derive(Debug)]
pub struct MarkedPtr<T, const N: usize> {
    inner: usize,
    _marker: PhantomData<T>,
}

impl<T, const N: usize> View for MarkedPtr<T, N> {
    type V = usize;

    /// The numeric representation of the pointer, tag included.
    closed spec fn view(&self) -> usize {
        self.inner
    }
}

impl<T, const N: usize> MarkedPtr<T, N> {
    /// The address part of the marked pointer.
    pub open spec fn ptr_spec(self) -> nat {
        ptr_of(self@ as nat, N as nat)
    }

    /// The tag part of the marked pointer.
    pub open spec fn tag_spec(self) -> nat {
        tag_of(self@ as nat, N as nat)
    }

    /// Creates an unmarked pointer from the address `ptr`.
    pub fn new(ptr: usize) -> (marked: Self)
        ensures
            marked@ == ptr,
    {
        Self { inner: ptr, _marker: PhantomData }
    }

    /// Creates a new & unmarked `null` pointer.
    pub fn null() -> (marked: Self)
        ensures
            marked@ == 0,
    {
        Self::new(0)
    }

    /// Creates a marked pointer from the numeric representation of a
    /// potentially marked pointer.
    pub fn from_usize(val: usize) -> (marked: Self)
        ensures
            marked@ == val,
    {
        Self::new(val)
    }

    /// Creates an unmarked pointer to the value behind `reference`.
    pub fn from_ref(reference: &T) -> (marked: Self)
        ensures
            marked@ != 0,
            marked@ as nat % vstd::layout::align_of::<T>() == 0,
            mark_bits_fit::<T>(N as nat) ==> marked.ptr_spec() == marked@ && marked.tag_spec() == 0,
    {
        let addr = address_of(reference);
        layout_for_type_is_valid::<T>();
        proof {
            if mark_bits_fit::<T>(N as nat) {
                lemma_type_aligned::<T>(addr as nat, N as nat);
                lemma_decompose_composed(addr as nat, 0, N as nat);
                lemma_tag_fits(0, N as nat);
            }
        }
        Self::new(addr)
    }

    /// Creates an unmarked pointer to the value behind the mutable `reference`.
    pub fn from_mut(reference: &mut T) -> (marked: Self)
        ensures
            marked@ != 0,
            marked@ as nat % vstd::layout::align_of::<T>() == 0,
            mark_bits_fit::<T>(N as nat) ==> marked.ptr_spec() == marked@ && marked.tag_spec() == 0,
    {
        Self::from_ref(&*reference)
    }

    /// Returns the numeric representation of the pointer with its tag.
    pub fn into_usize(self) -> (val: usize)
        ensures
            val == self@,
    {
        self.inner
    }

    /// Returns the inner pointer *as is*, meaning potential tags are not
    /// stripped.
    pub fn into_ptr(self) -> (val: usize)
        ensures
            val == self@,
    {
        self.inner
    }

    /// Composes a new marked pointer from an unmarked address and a tag
    /// value; a tag that does not fit into the `N` mark bits is truncated.
    pub fn compose(ptr: usize, tag: usize) -> (marked: Self)
        requires
            mark_bits_fit::<T>(N as nat),
            is_aligned_to(ptr as nat, N as nat),
        ensures
            marked@ == composed(ptr as nat, tag as nat, N as nat),
            marked.ptr_spec() == ptr,
            marked.tag_spec() == tag as nat % pow2(N as nat),
    {
        proof {
            lemma_decompose_composed(ptr as nat, tag as nat, N as nat);
        }
        Self::new(bits::compose::<T, N>(ptr, tag))
    }

    /// Converts a marked pointer with `M` potential mark bits to the **same**
    /// marked pointer with `N` potential mark bits; requires that `N >= M`.
    pub fn convert<const M: usize>(other: MarkedPtr<T, M>) -> (marked: Self)
        requires
            N >= M,
        ensures
            marked@ == other@,
    {
        Self::new(other.inner)
    }

    /// Clears the tag of `self` and returns the same but untagged pointer.
    pub fn clear_tag(self) -> (marked: Self)
        requires
            mark_bits_fit::<T>(N as nat),
        ensures
            marked@ == self.ptr_spec(),
            marked.ptr_spec() == self.ptr_spec(),
            marked.tag_spec() == 0,
    {
        proof {
            lemma_composed_decomposed(self@ as nat, N as nat);
            lemma_decompose_composed(self.ptr_spec(), 0, N as nat);
        }
        Self::new(self.decompose_ptr())
    }

    /// Clears the tag of `self` and replaces it with `tag`.
    pub fn with_tag(self, tag: usize) -> (marked: Self)
        requires
            mark_bits_fit::<T>(N as nat),
        ensures
            marked@ == composed(self.ptr_spec(), tag as nat, N as nat),
            marked.ptr_spec() == self.ptr_spec(),
            marked.tag_spec() == tag as nat % pow2(N as nat),
    {
        proof {
            lemma_composed_decomposed(self@ as nat, N as nat);
        }
        Self::compose(self.decompose_ptr(), tag)
    }

    /// Decomposes the marked pointer, returning the separated address and its
    /// tag.
    pub fn decompose(self) -> (parts: (usize, usize))
        requires
            mark_bits_fit::<T>(N as nat),
        ensures
            parts.0 == self.ptr_spec(),
            parts.1 == self.tag_spec(),
    {
        bits::decompose::<T>(self.inner, N)
    }

    /// Decomposes the marked pointer, returning only the separated address.
    pub fn decompose_ptr(self) -> (ptr: usize)
        requires
            mark_bits_fit::<T>(N as nat),
        ensures
            ptr == self.ptr_spec(),
    {
        bits::decompose_ptr::<T>(self.inner, N)
    }

    /// Decomposes the marked pointer, returning only the separated tag.
    pub fn decompose_tag(self) -> (tag: usize)
        requires
            mark_bits_fit::<T>(N as nat),
        ensures
            tag == self.tag_spec(),
    {
        bits::decompose_tag::<T>(self.inner, N)
    }

    /// Returns true if the pointer is `null` (regardless of the tag).
    pub fn is_null(self) -> (null: bool)
        requires
            mark_bits_fit::<T>(N as nat),
        ensures
            null == (self.ptr_spec() == 0),
    {
        self.decompose_ptr() == 0
    }
}

impl<T, const N: usize> Clone for MarkedPtr<T, N> {
    fn clone(&self) -> (copy: Self)
        ensures
            copy == *self,
    {
        Self::new(self.inner)
    }
}

impl<T, const N: usize> Copy for MarkedPtr<T, N> {
}

impl<T, const N: usize> Default for MarkedPtr<T, N> {
    /// The default marked pointer is the unmarked `null` pointer.
    fn default() -> (marked: Self)
        ensures
            marked@ == 0,
    {
        Self::null()
    }
}

impl<T, const N: usize> PartialEq for MarkedPtr<T, N> {
    /// Two marked pointers are equal if their addresses and tags are.
    fn eq(&self, other: &Self) -> (equal: bool) {
        self.inner == other.inner
    }
}

impl<T, const N: usize> vstd::std_specs::cmp::PartialEqSpecImpl for MarkedPtr<T, N> {
    open spec fn obeys_eq_spec() -> bool {
        true
    }

    open spec fn eq_spec(&self, other: &Self) -> bool {
        self@ == other@
    }
}

impl<T, const N: usize> Eq for MarkedPtr<T, N> {
}

impl<T, const N: usize> PartialOrd for MarkedPtr<T, N> {
    /// Marked pointers are ordered by their numeric representation.
    fn partial_cmp(&self, other: &Self) -> (order: Option<core::cmp::Ordering>) {
        if self.inner < other.inner {
            Some(core::cmp::Ordering::Less)
        } else if self.inner == other.inner {
            Some(core::cmp::Ordering::Equal)
        } else {
            Some(core::cmp::Ordering::Greater)
        }
    }
}

impl<T, const N: usize> vstd::std_specs::cmp::PartialOrdSpecImpl for MarkedPtr<T, N> {
    open spec fn obeys_partial_cmp_spec() -> bool {
        true
    }

    open spec fn partial_cmp_spec(&self, other: &Self) -> Option<core::cmp::Ordering> {
        if self@ < other@ {
            Some(core::cmp::Ordering::Less)
        } else if self@ == other@ {
            Some(core::cmp::Ordering::Equal)
        } else {
            Some(core::cmp::Ordering::Greater)
        }
    }
}

} // verus!
