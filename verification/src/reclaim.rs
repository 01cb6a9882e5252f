//! The traits that reclamation schemes implement, and the types they share.
use vstd::prelude::*;

use core::sync::atomic::Ordering;

use crate::atomic::Atomic;
use crate::atomic_ptr::is_load_ordering;
use crate::bits::{fits, has_non_null_ptr, is_tag, lemma_tag_is_tag};
use crate::marked::{Marked, MarkedPointer};
use crate::non_null::MarkedNonNull;
use crate::raw::MarkedPtr;
use crate::shared::Shared;
use crate::unlinked::Unlinked;

verus! {

/// A trait for retiring and reclaiming entries removed from concurrent
/// collections and data structures, for reclamation schemes with implicit
/// access to thread local state.
pub trait GlobalReclaim: Reclaim {
    /// The type used for protecting concurrently shared references.
    type Guard: Protect<Reclaimer = Self> + Default;

    /// Creates a new [`Guard`][GlobalReclaim::Guard].
    fn guard() -> (guard: Self::Guard)
        ensures
            call_ensures(Self::Guard::default, (), guard),
    {
        Self::Guard::default()
    }

    /// Retires a record and caches it **at least** until it is safe to
    /// deallocate it.
    ///
    /// The same caveats as with [`Reclaim::retire_local`] apply.
    fn retire<T: 'static, const N: usize>(unlinked: Unlinked<T, Self, N>);

    /// Retires a record and caches it **at least** until it is safe to
    /// deallocate it.
    ///
    /// The same caveats as with [`Reclaim::retire_local_unchecked`] apply.
    fn retire_unchecked<T, const N: usize>(unlinked: Unlinked<T, Self, N>);
}

/// A trait, which constitutes the foundation for the [`GlobalReclaim`]
/// trait, usable without thread local storage: functions that retire records
/// are handed the thread local state explicitly.
pub trait Reclaim: Sized + 'static {
    /// The type used for storing all relevant thread local state.
    type Local: Sized;

    /// Every record allocates this type alongside itself to store additional
    /// reclamation scheme specific data.
    type RecordHeader: Default + Sync + Sized;

    /// Retires a record and caches it **at least** until it is safe to
    /// deallocate it.
    ///
    /// The caller has to guarantee that the record is **fully** unlinked from
    /// any data structure it was previously inserted in: there must be no way
    /// for another thread to acquire a *new* reference to the given `unlinked`
    /// record.
    fn retire_local<T: 'static, const N: usize>(local: &Self::Local, unlinked: Unlinked<T, Self, N>);

    /// Retires a record and caches it **at least** until it is safe to
    /// deallocate it.
    ///
    /// In addition to the caveats of [`retire_local`][Reclaim::retire_local],
    /// the caller has to ensure that any `Drop` implementation for `T` does not
    /// access any **non-static** references.
    fn retire_local_unchecked<T, const N: usize>(local: &Self::Local, unlinked: Unlinked<T, Self, N>);
}

/// A trait for guard types that *protect* a specific value from reclamation
/// during the lifetime of the protecting guard.
pub trait Protect: Clone + Sized {
    /// The reclamation scheme associated with this type of guard.
    type Reclaimer: Reclaim;

    /// Converts the guard into a [`Guarded`] by fusing it with a value loaded
    /// from `atomic`; if that value is `null`, `self` is returned in an
    /// [`Err`] instead.
    fn try_fuse<T, const N: usize>(
        self,
        atomic: &Atomic<T, Self::Reclaimer, N>,
        order: Ordering,
    ) -> (fused: Result<Guarded<T, Self, N>, Self>)
        requires
            is_load_ordering(order),
            fits::<T, N>(),
        ensures
            fused matches Ok(guarded) ==> has_non_null_ptr::<N>(guarded.value_spec()),
    {
        let mut guard = self;
        let protected = match guard.protect(atomic, order) {
            Marked::Value(shared) => Marked::Value(Shared::into_marked_non_null(shared)),
            Marked::Null(tag) => Marked::Null(tag),
        };
        Guarded::fuse(guard, protected)
    }

    /// Releases any current protection that may be provided by the guard.
    ///
    /// By borrowing `self` mutably it is ensured that no loaded values
    /// protected by this guard can be used after calling this method. If
    /// `Self` additionally implements [`ProtectRegion`], this is a no-op.
    fn release(&mut self);

    /// Atomically takes a snapshot of `atomic` and returns a protected
    /// [`Shared`] reference wrapped in a [`Marked`] to it.
    ///
    /// The loaded value is stored within `self`. If the value of `atomic` is
    /// `null` or a pure tag (marked `null` pointer), no protection has to be
    /// established. Any previously protected value will be overwritten and be
    /// no longer protected, regardless of the loaded value.
    fn protect<T, const N: usize>(
        &mut self,
        atomic: &Atomic<T, Self::Reclaimer, N>,
        order: Ordering,
    ) -> (protected: Marked<Shared<T, Self::Reclaimer, N>>)
        requires
            is_load_ordering(order),
            fits::<T, N>(),
        ensures
            protected matches Marked::Value(shared) ==> has_non_null_ptr::<N>(shared@),
            protected matches Marked::Null(tag) ==> is_tag::<N>(tag),
    ;

    /// Atomically takes a snapshot of `atomic` and returns a protected
    /// [`Shared`] reference wrapped in a [`Marked`] to it, **if** the loaded
    /// value is equal to `expected`.
    ///
    /// A *successfully* loaded value is stored within `self`. If the loaded
    /// snapshot does not match `expected`, [`NotEqualError`] is returned and
    /// the previously protected value does not change.
    fn protect_if_equal<T, const N: usize>(
        &mut self,
        atomic: &Atomic<T, Self::Reclaimer, N>,
        expected: MarkedPtr<T, N>,
        order: Ordering,
    ) -> (protected: AcquireResult<T, Self::Reclaimer, N>)
        requires
            is_load_ordering(order),
            fits::<T, N>(),
        ensures
            protected matches Ok(marked) ==> marked.marked_value() == expected@,
    ;
}

/// A trait for guard types that protect any values loaded during their
/// existence and lifetime.
pub trait ProtectRegion: Protect {
}

/// Result type for [`protect_if_equal`][Protect::protect_if_equal]
/// operations.
pub type AcquireResult<'g, T, R, const N: usize> = Result<
    Marked<Shared<'g, T, R, N>>,
    NotEqualError,
>;

/// Acquires the snapshot `raw` of an atomic pointer if it equals `expected`:
/// the snapshot is returned as a [`Marked`] [`Shared`] value if it does, and
/// [`NotEqualError`] if it does not.
pub fn acquire_if_equal<'g, T, R, const N: usize>(
    raw: MarkedPtr<T, N>,
    expected: MarkedPtr<T, N>,
) -> (acquired: AcquireResult<'g, T, R, N>)
    requires
        fits::<T, N>(),
    ensures
        raw@ == expected@ ==> (acquired matches Ok(marked) && marked.marked_value() == raw@),
        raw@ != expected@ ==> acquired is Err,
        acquired matches Ok(Marked::Value(shared)) ==> has_non_null_ptr::<N>(shared@),
        acquired matches Ok(Marked::Null(tag)) ==> tag == raw.tag_spec() && is_tag::<N>(tag),
{
    if raw == expected {
        proof {
            lemma_tag_is_tag::<N>(raw@);
        }
        Ok(Marked::from_marked_ptr(raw))
    } else {
        Err(NotEqualError)
    }
}

/// A zero-size marker type that represents the failure state of a
/// [`protect_if_equal`][Protect::protect_if_equal] operation.
#[derive(Clone, Copy, Debug, Default, Eq, Ord, PartialEq, PartialOrd)]
pub struct NotEqualError;

impl NotEqualError {
    /// The message that describes the error.
    pub fn message(&self) -> (message: &'static str)
        ensures
            message@ == "acquired value does not match `expected`."@,
    {
        "acquired value does not match `expected`."
    }
}

/// A record type that is associated with a specific reclamation scheme: the
/// element together with the header of the scheme.
pub struct Record<T, R: Reclaim> {
    /// The record's header
    pub header: R::RecordHeader,
    /// The record's wrapped (inner) element
    pub elem: T,
}

impl<T, R: Reclaim> Record<T, R> {
    /// Creates a new record with the specified `elem` and a default header.
    pub fn new(elem: T) -> (record: Self)
        ensures
            record.elem == elem,
            call_ensures(R::RecordHeader::default, (), record.header),
    {
        Self { header: R::RecordHeader::default(), elem }
    }

    /// Creates a new record with the specified `elem` and `header`.
    pub fn with_header(elem: T, header: R::RecordHeader) -> (record: Self)
        ensures
            record.elem == elem,
            record.header == header,
    {
        Self { header, elem }
    }

    /// Returns a reference to the record's header.
    pub fn header(&self) -> (header: &R::RecordHeader)
        ensures
            *header == self.header,
    {
        &self.header
    }

    /// Returns a reference to the record's element.
    pub fn elem(&self) -> (elem: &T)
        ensures
            *elem == self.elem,
    {
        &self.elem
    }
}

/// Returns the address of the record whose element lies at the address
/// `elem`, where `elem_offset` is the offset in bytes of the element within
/// the record.
pub fn record_address(elem: usize, elem_offset: usize) -> (record: usize)
    requires
        elem_offset <= elem,
    ensures
        record == elem - elem_offset,
{
    elem - elem_offset
}

/// Returns the address of the header of the record whose element lies at the
/// address `elem`, where `elem_offset` and `header_offset` are the offsets in
/// bytes of the element and the header within the record.
pub fn header_address(elem: usize, elem_offset: usize, header_offset: usize) -> (header: usize)
    requires
        elem_offset <= elem,
        elem - elem_offset + header_offset <= usize::MAX,
    ensures
        header == elem - elem_offset + header_offset,
{
    record_address(elem, elem_offset) + header_offset
}

/// A guard type fused with a protected value.
pub struct Guarded<T, G, const N: usize> {
    guard: G,
    ptr: MarkedNonNull<T, N>,
}

impl<T, G, const N: usize> Guarded<T, G, N> {
    /// The numeric representation of the protected value.
    pub closed spec fn value_spec(self) -> usize {
        self.ptr@
    }

    /// The guard that protects the value.
    pub closed spec fn guard_spec(self) -> G {
        self.guard
    }

    /// Fuses `guard` with the value it `protected`: a non-null value gives a
    /// [`Guarded`], a (marked) `null` hands `guard` back in an [`Err`].
    pub fn fuse(guard: G, protected: Marked<MarkedNonNull<T, N>>) -> (fused: Result<Self, G>)
        ensures
            match protected {
                Marked::Value(ptr) => fused matches Ok(guarded) && guarded.value_spec() == ptr@
                    && guarded.guard_spec() == guard,
                Marked::Null(_) => fused == Err::<Self, G>(guard),
            },
    {
        match protected {
            Marked::Value(ptr) => Ok(Guarded { guard, ptr }),
            Marked::Null(_) => Err(guard),
        }
    }
}

impl<T, G: Protect, const N: usize> Guarded<T, G, N> {
    /// Returns a [`Shared`] reference borrowed from the [`Guarded`].
    pub fn shared(&self) -> (shared: Shared<'_, T, G::Reclaimer, N>)
        ensures
            shared@ == self.value_spec(),
    {
        Shared::from_inner(self.ptr)
    }

    /// Converts the [`Guarded`] into the internally stored guard, which is
    /// [`released`][Protect::release] before being returned.
    pub fn into_guard(self) -> (guard: G) {
        let mut guard = self.guard;
        guard.release();
        guard
    }
}

} // verus!
