//! The [`Marked`] type for the possible states of a nullable marked pointer,
//! and the traits shared by all marked pointer types.
use vstd::prelude::*;

use vstd::arithmetic::power2::pow2;

use crate::bits::{
    has_non_null_ptr, lemma_composed_decomposed, lemma_decompose_composed, lemma_mod_le, lemma_null_aligned, lemma_tag_fits, mark_bits_fit, ptr_of,
    tag_of,
};
use crate::non_null::MarkedNonNull;
use crate::raw::MarkedPtr;

verus! {

/// A marker trait for internal traits.
pub trait Internal {
}

impl<'a, T> Internal for &'a T {
}

impl<'a, T> Internal for &'a mut T {
}

/// A marker trait for non-nullable pointer types.
pub trait NonNullable {
}

impl<'a, T> NonNullable for &'a T {
}

impl<'a, T> NonNullable for &'a mut T {
}

/// Trait for nullable and non-nullable *markable* pointer types with `N`
/// mark bits.
pub trait MarkedPointer<const N: usize>: Sized + Internal {
    /// The pointed-to type.
    type Item: Sized;

    /// The numeric representation (address and tag) of the pointer.
    spec fn marked_value(&self) -> usize;

    /// The numeric representations that a `Self` can be constructed from.
    spec fn admits(marked: usize) -> bool;

    /// The numeric representation of the `Self` constructed from `marked`.
    spec fn from_marked_value(marked: usize) -> usize;

    /// A numeric representation with a non-null address part that `Self`
    /// admits is kept as it is by [`from_marked_value`][Self::from_marked_value].
    proof fn lemma_from_marked_value(marked: usize)
        requires
            Self::admits(marked),
            has_non_null_ptr::<N>(marked),
        ensures
            Self::from_marked_value(marked) == marked,
    ;

    /// Returns the equivalent raw marked pointer.
    fn as_marked_ptr(&self) -> (marked: MarkedPtr<Self::Item, N>)
        requires
            mark_bits_fit::<Self::Item>(N as nat),
        ensures
            marked@ == self.marked_value(),
            Self::admits(marked@),
    ;

    /// Returns the tag value of the marked pointer.
    fn decompose_tag(&self) -> (tag: usize)
        requires
            mark_bits_fit::<Self::Item>(N as nat),
        ensures
            tag == tag_of(self.marked_value() as nat, N as nat),
    ;

    /// Consumes `self` and returns the same value but without any tag.
    fn clear_tag(self) -> (cleared: Self)
        requires
            mark_bits_fit::<Self::Item>(N as nat),
        ensures
            cleared.marked_value() == ptr_of(self.marked_value() as nat, N as nat),
    ;

    /// Consumes `self` and returns the equivalent raw marked pointer.
    fn into_marked_ptr(self) -> (marked: MarkedPtr<Self::Item, N>)
        requires
            mark_bits_fit::<Self::Item>(N as nat),
        ensures
            marked@ == self.marked_value(),
            Self::admits(marked@),
    ;

    /// Constructs a `Self` from a raw marked pointer.
    ///
    /// The caller has to ensure that `marked` is a valid pointer for the
    /// respective `Self` type. If `Self` is nullable, a null pointer is a valid
    /// value. Otherwise, all values must be valid pointers.
    fn from_marked_ptr(marked: MarkedPtr<Self::Item, N>) -> (ptr: Self)
        requires
            mark_bits_fit::<Self::Item>(N as nat),
            Self::admits(marked@),
        ensures
            ptr.marked_value() == Self::from_marked_value(marked@),
    ;

    /// Constructs a `Self` from a raw non-null marked pointer.
    fn from_marked_non_null(marked: MarkedNonNull<Self::Item, N>) -> (ptr: Self)
        requires
            mark_bits_fit::<Self::Item>(N as nat),
        ensures
            ptr.marked_value() == marked@,
    ;
}

/// An error type for representing failed conversions from nullable to
/// non-nullable pointer types.
#[derive(Copy, Clone, Debug, Default, Eq, PartialEq, Ord, PartialOrd)]
pub struct InvalidNullError;

/// A value that represents the possible states of a nullable marked pointer.
#[derive(Copy, Clone, Debug, Eq, Ord, PartialEq, PartialOrd)]
pub enum Marked<T: NonNullable> {
    /// A marked, non-null pointer value.
    Value(T),
    /// A marked null pointer (i.e. only the tag).
    Null(usize),
}

impl<T: NonNullable> Marked<T> {
    /// Returns `true` if the marked value contains a [`Value`][Marked::Value].
    pub fn is_value(&self) -> (value: bool)
        ensures
            value == (*self is Value),
    {
        match *self {
            Marked::Value(_) => true,
            _ => false,
        }
    }

    /// Returns `true` if the marked value is a [`Null`][Marked::Null].
    pub fn is_null(&self) -> (null: bool)
        ensures
            null == (*self is Null),
    {
        match *self {
            Marked::Null(_) => true,
            _ => false,
        }
    }

    /// Converts from `Marked<T>` to `Marked<&T>`.
    pub fn as_ref(&self) -> (marked: Marked<&T>)
        ensures
            match *self {
                Marked::Value(value) => marked matches Marked::Value(r) && *r == value,
                Marked::Null(tag) => marked == Marked::<&T>::Null(tag),
            },
    {
        match self {
            Marked::Value(value) => Marked::Value(value),
            Marked::Null(tag) => Marked::Null(*tag),
        }
    }

    /// Converts from `Marked<T>` to `Marked<&mut T>`.
    pub fn as_mut(&mut self) -> (marked: Marked<&mut T>)
        ensures
            match *old(self) {
                Marked::Value(value) => marked matches Marked::Value(r) && *r == value
                    && *final(self) == Marked::Value(*final(r)),
                Marked::Null(tag) => marked == Marked::<&mut T>::Null(tag) && *final(self)
                    == Marked::<T>::Null(tag),
            },
    {
        match self {
            Marked::Value(value) => Marked::Value(value),
            Marked::Null(tag) => Marked::Null(*tag),
        }
    }

    /// Moves the pointer out of the `Marked` if it is a
    /// [`Value`][Marked::Value].
    pub fn unwrap_value(self) -> (value: T)
        requires
            self is Value,
        ensures
            self == Marked::Value(value),
    {
        match self {
            Marked::Value(ptr) => ptr,
            Marked::Null(_) => unreached(),
        }
    }

    /// Extracts the tag out of the `Marked` if it is a
    /// [`Null`][Marked::Null].
    pub fn unwrap_null(self) -> (tag: usize)
        requires
            self is Null,
        ensures
            self == Marked::<T>::Null(tag),
    {
        match self {
            Marked::Null(tag) => tag,
            Marked::Value(_) => unreached(),
        }
    }

    /// Returns the contained value or the result of the given `func`, which
    /// is handed the tag.
    pub fn unwrap_value_or_else<F: FnOnce(usize) -> T>(self, func: F) -> (value: T)
        requires
            self matches Marked::Null(tag) ==> func.requires((tag,)),
        ensures
            match self {
                Marked::Value(v) => value == v,
                Marked::Null(tag) => func.ensures((tag,), value),
            },
    {
        match self {
            Marked::Value(ptr) => ptr,
            Marked::Null(tag) => func(tag),
        }
    }

    /// Maps a `Marked<T>` to `Marked<U>` by applying a function to a contained
    /// value; a tag is kept as it is.
    pub fn map<U: NonNullable, F: FnOnce(T) -> U>(self, func: F) -> (marked: Marked<U>)
        requires
            self matches Marked::Value(v) ==> func.requires((v,)),
        ensures
            match self {
                Marked::Value(v) => marked matches Marked::Value(u) && func.ensures((v,), u),
                Marked::Null(tag) => marked == Marked::<U>::Null(tag),
            },
    {
        match self {
            Marked::Value(ptr) => Marked::Value(func(ptr)),
            Marked::Null(tag) => Marked::Null(tag),
        }
    }

    /// Applies a function to the contained value (if any), or computes a
    /// default value using `default`, if no value is contained.
    pub fn map_or_else<U: NonNullable, D: FnOnce(usize) -> U, F: FnOnce(T) -> U>(
        self,
        default: D,
        func: F,
    ) -> (mapped: U)
        requires
            self matches Marked::Value(v) ==> func.requires((v,)),
            self matches Marked::Null(tag) ==> default.requires((tag,)),
        ensures
            match self {
                Marked::Value(v) => func.ensures((v,), mapped),
                Marked::Null(tag) => default.ensures((tag,), mapped),
            },
    {
        match self {
            Marked::Value(ptr) => func(ptr),
            Marked::Null(tag) => default(tag),
        }
    }

    /// Converts `self` from `Marked<T>` to [`Option<T>`][Option], discarding
    /// the tag of a [`Null`][Marked::Null].
    pub fn value(self) -> (value: Option<T>)
        ensures
            match self {
                Marked::Value(v) => value == Some(v),
                Marked::Null(_) => value is None,
            },
    {
        match self {
            Marked::Value(ptr) => Some(ptr),
            _ => None,
        }
    }

    /// Takes the value of the [`Marked`], leaving an unmarked
    /// [`Null`][Marked::Null] in its place.
    pub fn take(&mut self) -> (taken: Self)
        ensures
            taken == *old(self),
            *final(self) == Marked::<T>::Null(0),
    {
        let mut taken = Marked::Null(0);
        core::mem::swap(self, &mut taken);
        taken
    }

    /// Replaces the actual value in the [`Marked`] with the given `value`,
    /// returning the old value.
    pub fn replace(&mut self, value: T) -> (replaced: Self)
        ensures
            replaced == *old(self),
            *final(self) == Marked::Value(value),
    {
        let mut replaced = Marked::Value(value);
        core::mem::swap(self, &mut replaced);
        replaced
    }

    /// Decomposes the inner marked pointer, returning only the separated tag;
    /// the tag of a [`Null`][Marked::Null] is returned as it is.
    pub fn decompose_tag<const N: usize>(&self) -> (tag: usize) where T: MarkedPointer<N>
        requires
            mark_bits_fit::<T::Item>(N as nat),
        ensures
            match *self {
                Marked::Value(ptr) => tag == tag_of(ptr.marked_value() as nat, N as nat),
                Marked::Null(t) => tag == t,
            },
    {
        match self {
            Marked::Value(ptr) => ptr.as_marked_ptr().decompose_tag(),
            Marked::Null(tag) => *tag,
        }
    }
}

impl<T: NonNullable> From<Option<T>> for Marked<T> {
    /// Converts an [`Option`] into a `Marked`; `None` becomes an unmarked
    /// [`Null`][Marked::Null].
    fn from(opt: Option<T>) -> (marked: Self) {
        match opt {
            Some(ptr) => Marked::Value(ptr),
            None => Marked::Null(0),
        }
    }
}

impl<T: NonNullable> vstd::std_specs::convert::FromSpecImpl<Option<T>> for Marked<T> {
    open spec fn obeys_from_spec() -> bool {
        true
    }

    open spec fn from_spec(opt: Option<T>) -> Self {
        match opt {
            Some(ptr) => Marked::Value(ptr),
            None => Marked::Null(0),
        }
    }
}

impl<T: NonNullable> Default for Marked<T> {
    /// The default is an unmarked [`Null`][Marked::Null].
    fn default() -> (marked: Self)
        ensures
            marked == Marked::<T>::Null(0),
    {
        Marked::Null(0)
    }
}

} // verus!

verus! {

impl<T: NonNullable> Internal for Marked<T> {
}

impl<T: NonNullable> Internal for Option<T> {
}

impl<P: NonNullable + MarkedPointer<N>, const N: usize> MarkedPointer<N> for Marked<P> {
    type Item = P::Item;

    open spec fn marked_value(&self) -> usize {
        match *self {
            Marked::Value(p) => p.marked_value(),
            Marked::Null(tag) => (tag as nat % pow2(N as nat)) as usize,
        }
    }

    open spec fn admits(marked: usize) -> bool {
        ptr_of(marked as nat, N as nat) != 0 ==> P::admits(marked)
    }

    open spec fn from_marked_value(marked: usize) -> usize {
        if ptr_of(marked as nat, N as nat) == 0 {
            marked
        } else {
            P::from_marked_value(marked)
        }
    }

    proof fn lemma_from_marked_value(marked: usize) {
        P::lemma_from_marked_value(marked);
    }

    fn as_marked_ptr(&self) -> (marked: MarkedPtr<P::Item, N>) {
        match self {
            Marked::Value(p) => p.as_marked_ptr(),
            Marked::Null(tag) => {
                proof {
                    lemma_null_aligned(N as nat);
                    lemma_decompose_composed(0, *tag as nat, N as nat);
                }
                MarkedPtr::compose(0, *tag)
            },
        }
    }

    fn decompose_tag(&self) -> (tag: usize) {
        match self {
            Marked::Value(p) => p.decompose_tag(),
            Marked::Null(tag) => {
                proof {
                    lemma_null_aligned(N as nat);
                }
                let marked = MarkedPtr::<P::Item, N>::compose(0, *tag);
                marked.decompose_tag()
            },
        }
    }

    fn clear_tag(self) -> (cleared: Self) {
        match self {
            Marked::Value(p) => {
                Marked::Value(p.clear_tag())
            },
            Marked::Null(tag) => {
                proof {
                    lemma_null_aligned(N as nat);
                    lemma_decompose_composed(0, tag as nat, N as nat);
                    lemma_tag_fits(0, N as nat);
                    lemma_mod_le(tag as nat, N as nat);
                }
                Marked::Null(0)
            },
        }
    }

    fn into_marked_ptr(self) -> (marked: MarkedPtr<P::Item, N>) {
        self.as_marked_ptr()
    }

    fn from_marked_ptr(marked: MarkedPtr<P::Item, N>) -> (ptr: Self)
        ensures
            ptr is Null <==> marked.ptr_spec() == 0,
            ptr matches Marked::Null(tag) ==> tag == marked.tag_spec(),
    {
        let (raw, tag) = marked.decompose();
        if raw == 0 {
            proof {
                lemma_composed_decomposed(marked@ as nat, N as nat);
                lemma_null_aligned(N as nat);
                lemma_decompose_composed(0, tag as nat, N as nat);
            }
            Marked::Null(tag)
        } else {
            Marked::Value(P::from_marked_ptr(marked))
        }
    }

    fn from_marked_non_null(marked: MarkedNonNull<P::Item, N>) -> (ptr: Self) {
        Marked::Value(P::from_marked_non_null(marked))
    }
}

impl<P: NonNullable + MarkedPointer<N>, const N: usize> MarkedPointer<N> for Option<P> {
    type Item = P::Item;

    open spec fn marked_value(&self) -> usize {
        match *self {
            Some(p) => p.marked_value(),
            None => 0,
        }
    }

    open spec fn admits(marked: usize) -> bool {
        ptr_of(marked as nat, N as nat) != 0 ==> P::admits(marked)
    }

    open spec fn from_marked_value(marked: usize) -> usize {
        if ptr_of(marked as nat, N as nat) == 0 {
            0
        } else {
            P::from_marked_value(marked)
        }
    }

    proof fn lemma_from_marked_value(marked: usize) {
        P::lemma_from_marked_value(marked);
    }

    fn as_marked_ptr(&self) -> (marked: MarkedPtr<P::Item, N>) {
        match self {
            Some(p) => p.as_marked_ptr(),
            None => {
                proof {
                    lemma_composed_decomposed(0, N as nat);
                }
                MarkedPtr::null()
            },
        }
    }

    fn decompose_tag(&self) -> (tag: usize) {
        match self {
            Some(p) => p.decompose_tag(),
            None => {
                proof {
                    lemma_tag_fits(0, N as nat);
                }
                0
            },
        }
    }

    fn clear_tag(self) -> (cleared: Self) {
        match self {
            Some(p) => Some(p.clear_tag()),
            None => {
                proof {
                    lemma_composed_decomposed(0, N as nat);
                }
                None
            },
        }
    }

    fn into_marked_ptr(self) -> (marked: MarkedPtr<P::Item, N>) {
        self.as_marked_ptr()
    }

    fn from_marked_ptr(marked: MarkedPtr<P::Item, N>) -> (ptr: Self)
        ensures
            ptr is None <==> marked.ptr_spec() == 0,
    {
        if marked.is_null() {
            None
        } else {
            Some(P::from_marked_ptr(marked))
        }
    }

    fn from_marked_non_null(marked: MarkedNonNull<P::Item, N>) -> (ptr: Self) {
        Some(P::from_marked_non_null(marked))
    }
}

} // verus!
