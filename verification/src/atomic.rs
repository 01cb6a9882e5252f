//! The atomic markable pointer type [`Atomic`] to heap allocated records.
use core::marker::PhantomData;
use core::sync::atomic::Ordering;

use vstd::prelude::*;

use crate::atomic_ptr::{is_load_ordering, is_store_ordering, AtomicMarkedPtr};
use crate::bits::{fits, has_non_null_ptr, is_tag, lemma_tag_is_tag};
use crate::leak::Leaking;
use crate::marked::{Internal, Marked, MarkedPointer, NonNullable};
use crate::non_null::MarkedNonNull;
use crate::raw::MarkedPtr;
use crate::reclaim::{acquire_if_equal, AcquireResult, NotEqualError, Protect, ProtectRegion, Reclaim};
use crate::shared::Shared;
use crate::unlinked::Unlinked;
use crate::unprotected::Unprotected;

verus! {

/// A sealed trait for abstracting over different types for valid guard
/// values: mutable references to guards implementing [`Protect`], and shared
/// references to guards that also implement [`ProtectRegion`].
pub trait Guard<'g> {
    /// The reclamation scheme of the guard.
    type Reclaimer: Reclaim;

    /// Loads a value from `atomic` and protects it.
    fn load_protected<T, const N: usize>(
        self,
        atomic: &Atomic<T, Self::Reclaimer, N>,
        order: Ordering,
    ) -> (protected: Marked<Shared<'g, T, Self::Reclaimer, N>>)
        requires
            is_load_ordering(order),
            fits::<T, N>(),
        ensures
            protected matches Marked::Value(shared) ==> has_non_null_ptr::<N>(shared@),
            protected matches Marked::Null(tag) ==> is_tag::<N>(tag),
    ;

    /// Loads a value from `atomic` and protects it, if it equals `expected`.
    fn load_protected_if_equal<T, const N: usize>(
        self,
        atomic: &Atomic<T, Self::Reclaimer, N>,
        expected: MarkedPtr<T, N>,
        order: Ordering,
    ) -> (protected: AcquireResult<'g, T, Self::Reclaimer, N>)
        requires
            is_load_ordering(order),
            fits::<T, N>(),
        ensures
            protected matches Ok(marked) ==> marked.marked_value() == expected@,
    ;
}

impl<'g, G: Protect> Guard<'g> for &'g mut G {
    type Reclaimer = G::Reclaimer;

    fn load_protected<T, const N: usize>(
        self,
        atomic: &Atomic<T, Self::Reclaimer, N>,
        order: Ordering,
    ) -> (protected: Marked<Shared<'g, T, Self::Reclaimer, N>>) {
        self.protect(atomic, order)
    }

    fn load_protected_if_equal<T, const N: usize>(
        self,
        atomic: &Atomic<T, Self::Reclaimer, N>,
        expected: MarkedPtr<T, N>,
        order: Ordering,
    ) -> (protected: AcquireResult<'g, T, Self::Reclaimer, N>) {
        self.protect_if_equal(atomic, expected, order)
    }
}

impl<'g, G: ProtectRegion> Guard<'g> for &'g G {
    type Reclaimer = G::Reclaimer;

    fn load_protected<T, const N: usize>(
        self,
        atomic: &Atomic<T, Self::Reclaimer, N>,
        order: Ordering,
    ) -> (protected: Marked<Shared<'g, T, Self::Reclaimer, N>>) {
        let raw = atomic.load_raw(order);
        proof {
            lemma_tag_is_tag::<N>(raw@);
        }
        Marked::from_marked_ptr(raw)
    }

    fn load_protected_if_equal<T, const N: usize>(
        self,
        atomic: &Atomic<T, Self::Reclaimer, N>,
        expected: MarkedPtr<T, N>,
        order: Ordering,
    ) -> (protected: AcquireResult<'g, T, Self::Reclaimer, N>) {
        acquire_if_equal(atomic.load_raw(order), expected)
    }
}

/// Trait for pointer types that can be stored in an [`Atomic`].
pub trait Store<const N: usize>: MarkedPointer<N> + Sized {
    /// The reclamation scheme of the stored records.
    type Reclaimer: Reclaim;
}

/// Trait for pointer types that an [`Atomic`] can be compared with; a
/// successful *compare-and-swap* unlinks the compared value.
pub trait Compare<const N: usize>: MarkedPointer<N> + Sized {
    /// The reclamation scheme of the compared records.
    type Reclaimer: Reclaim;

    /// The type of the unlinked value.
    type Unlinked: MarkedPointer<N, Item = Self::Item>;

    /// Every value of the compared type can be turned into an unlinked one.
    proof fn lemma_unlinked_admits(marked: usize)
        requires
            Self::admits(marked),
        ensures
            Self::Unlinked::admits(marked),
            Self::Unlinked::from_marked_value(marked) == Self::from_marked_value(marked),
    ;
}

impl<P: NonNullable + Store<N>, const N: usize> Store<N> for Option<P> {
    type Reclaimer = P::Reclaimer;
}

impl<P: NonNullable + Store<N>, const N: usize> Store<N> for Marked<P> {
    type Reclaimer = P::Reclaimer;
}

impl<'g, T, R: Reclaim, const N: usize> Store<N> for Shared<'g, T, R, N> {
    type Reclaimer = R;
}

impl<T, R: Reclaim, const N: usize> Store<N> for Unlinked<T, R, N> {
    type Reclaimer = R;
}

impl<T, R: Reclaim, const N: usize> Store<N> for Unprotected<T, R, N> {
    type Reclaimer = R;
}

impl<'g, T, R: Reclaim, const N: usize> Compare<N> for Shared<'g, T, R, N> {
    type Reclaimer = R;

    type Unlinked = Unlinked<T, R, N>;

    proof fn lemma_unlinked_admits(marked: usize) {
    }
}

impl<'g, T, R: Reclaim, const N: usize> Compare<N> for Option<Shared<'g, T, R, N>> {
    type Reclaimer = R;

    type Unlinked = Option<Unlinked<T, R, N>>;

    proof fn lemma_unlinked_admits(marked: usize) {
        assert(Shared::<'g, T, R, N>::admits(marked) == Unlinked::<T, R, N>::admits(marked));
        assert(Option::<Unlinked<T, R, N>>::admits(marked));
    }
}

impl<'g, T, R: Reclaim, const N: usize> Compare<N> for Marked<Shared<'g, T, R, N>> {
    type Reclaimer = R;

    type Unlinked = Marked<Unlinked<T, R, N>>;

    proof fn lemma_unlinked_admits(marked: usize) {
        assert(Shared::<'g, T, R, N>::admits(marked) == Unlinked::<T, R, N>::admits(marked));
        assert(Marked::<Unlinked<T, R, N>>::admits(marked));
    }
}

impl<T, R: Reclaim, const N: usize> Compare<N> for Unprotected<T, R, N> {
    type Reclaimer = R;

    type Unlinked = Unlinked<T, R, N>;

    proof fn lemma_unlinked_admits(marked: usize) {
    }
}

impl<T, R: Reclaim, const N: usize> Compare<N> for Option<Unprotected<T, R, N>> {
    type Reclaimer = R;

    type Unlinked = Option<Unlinked<T, R, N>>;

    proof fn lemma_unlinked_admits(marked: usize) {
        assert(Unprotected::<T, R, N>::admits(marked) == Unlinked::<T, R, N>::admits(marked));
        assert(Option::<Unlinked<T, R, N>>::admits(marked));
    }
}

impl<T, R: Reclaim, const N: usize> Compare<N> for Marked<Unprotected<T, R, N>> {
    type Reclaimer = R;

    type Unlinked = Marked<Unlinked<T, R, N>>;

    proof fn lemma_unlinked_admits(marked: usize) {
        assert(Unprotected::<T, R, N>::admits(marked) == Unlinked::<T, R, N>::admits(marked));
        assert(Marked::<Unlinked<T, R, N>>::admits(marked));
    }
}

/// An atomic markable pointer type to an owned heap allocated value.
///
/// The `Atomic` type has similarities to `Option<Box>`, as it is a pointer
/// that is either `null` or otherwise must point to a valid, heap allocated
/// value. What a load observes depends on the operations of other threads:
/// the contracts of the loading operations state what holds of every outcome.
pub struct Atomic<T, R, const N: usize> {
    inner: AtomicMarkedPtr<T, N>,
    _marker: PhantomData<(T, R)>,
}

impl<T, R, const N: usize> Atomic<T, R, N> {
    /// Creates a new `null` pointer.
    pub fn null() -> (atomic: Self) {
        Self { inner: AtomicMarkedPtr::null(), _marker: PhantomData }
    }

    /// The underlying (raw) atomic markable pointer.
    pub closed spec fn raw_spec(&self) -> AtomicMarkedPtr<T, N> {
        self.inner
    }

    /// Gets a reference to the underlying (raw) atomic markable pointer.
    pub fn as_raw(&self) -> (raw: &AtomicMarkedPtr<T, N>)
        ensures
            *raw == self.raw_spec(),
    {
        &self.inner
    }
}

impl<T, R: Reclaim, const N: usize> Atomic<T, R, N> {
    /// Creates a new [`Atomic`] from the given `ptr`.
    ///
    /// The given `ptr` argument must be a pointer to a valid heap allocated
    /// instance of `T` that was allocated as part of a
    /// [`Record`][crate::Record]; the same pointer should not be used to create
    /// more than one [`Atomic`].
    pub fn from_raw(ptr: MarkedPtr<T, N>) -> (atomic: Self) {
        Self { inner: AtomicMarkedPtr::new(ptr), _marker: PhantomData }
    }

    /// Loads a raw marked value from the pointer.
    pub fn load_raw(&self, order: Ordering) -> (raw: MarkedPtr<T, N>)
        requires
            is_load_ordering(order),
    {
        self.inner.load(order)
    }

    /// Loads an optional [`Unprotected`] reference from the `Atomic`; a
    /// (marked) `null` pointer is returned as `None`.
    ///
    /// The returned reference is explicitly **not** protected from
    /// reclamation.
    pub fn load_unprotected(&self, order: Ordering) -> (unprotected: Option<Unprotected<T, R, N>>)
        requires
            is_load_ordering(order),
            fits::<T, N>(),
        ensures
            unprotected matches Some(u) ==> has_non_null_ptr::<N>(u@),
    {
        self.load_marked_unprotected(order).value()
    }

    /// Loads an [`Unprotected`] reference wrapped in a [`Marked`] from the
    /// `Atomic`.
    ///
    /// The returned reference is explicitly **not** protected from
    /// reclamation.
    pub fn load_marked_unprotected(&self, order: Ordering) -> (unprotected: Marked<
        Unprotected<T, R, N>,
    >)
        requires
            is_load_ordering(order),
            fits::<T, N>(),
        ensures
            unprotected matches Marked::Value(u) ==> has_non_null_ptr::<N>(u@),
            unprotected matches Marked::Null(tag) ==> is_tag::<N>(tag),
    {
        let raw = self.inner.load(order);
        proof {
            lemma_tag_is_tag::<N>(raw@);
        }
        match MarkedNonNull::new(raw) {
            Marked::Value(ptr) => Marked::Value(Unprotected::from_marked_non_null(ptr)),
            Marked::Null(tag) => Marked::Null(tag),
        }
    }

    /// Loads a value from the pointer and uses `guard` to protect it.
    ///
    /// If the loaded value is non-null, the value is guaranteed to be
    /// protected from reclamation during the lifetime of `guard`.
    pub fn load<'g>(&self, order: Ordering, guard: impl Guard<'g, Reclaimer = R>) -> (shared: Option<
        Shared<'g, T, R, N>,
    >)
        requires
            is_load_ordering(order),
            fits::<T, N>(),
        ensures
            shared matches Some(s) ==> has_non_null_ptr::<N>(s@),
    {
        guard.load_protected(self, order).value()
    }

    /// Loads a value from the pointer and uses `guard` to protect it, but
    /// only if the loaded value equals `expected`.
    pub fn load_if_equal<'g>(
        &self,
        expected: MarkedPtr<T, N>,
        order: Ordering,
        guard: impl Guard<'g, Reclaimer = R>,
    ) -> (shared: Result<Option<Shared<'g, T, R, N>>, NotEqualError>)
        requires
            is_load_ordering(order),
            fits::<T, N>(),
        ensures
            shared matches Ok(opt) ==> (opt matches Some(s) ==> s@ == expected@),
    {
        match guard.load_protected_if_equal(self, expected, order) {
            Ok(marked) => Ok(marked.value()),
            Err(err) => Err(err),
        }
    }

    /// Loads a value from the pointer and uses `guard` to protect it. The
    /// (optional) protected [`Shared`] value is wrapped in a [`Marked`].
    pub fn load_marked<'g>(&self, order: Ordering, guard: impl Guard<'g, Reclaimer = R>) -> (shared: Marked<
        Shared<'g, T, R, N>,
    >)
        requires
            is_load_ordering(order),
            fits::<T, N>(),
        ensures
            shared matches Marked::Value(s) ==> has_non_null_ptr::<N>(s@),
            shared matches Marked::Null(tag) ==> is_tag::<N>(tag),
    {
        guard.load_protected(self, order)
    }

    /// Loads a value from the pointer and uses `guard` to protect it, but
    /// only if the loaded value equals `expected`. The (optional) protected
    /// [`Shared`] value is wrapped in a [`Marked`].
    pub fn load_marked_if_equal<'g>(
        &self,
        expected: MarkedPtr<T, N>,
        order: Ordering,
        guard: impl Guard<'g, Reclaimer = R>,
    ) -> (shared: AcquireResult<'g, T, R, N>)
        requires
            is_load_ordering(order),
            fits::<T, N>(),
        ensures
            shared matches Ok(marked) ==> marked.marked_value() == expected@,
    {
        guard.load_protected_if_equal(self, expected, order)
    }

    /// Stores either `null` or a valid pointer to an owned heap allocated
    /// value into the pointer.
    pub fn store<S: Store<N, Item = T, Reclaimer = R>>(&self, ptr: S, order: Ordering)
        requires
            is_store_ordering(order),
            fits::<T, N>(),
    {
        self.inner.store(ptr.into_marked_ptr(), order);
    }

    /// Stores either `null` or a valid pointer to an owned heap allocated
    /// value into the pointer, returning the previous value, which is now
    /// unlinked.
    pub fn swap<S: Store<N, Item = T, Reclaimer = R>>(&self, ptr: S, order: Ordering) -> (prev: Option<
        Unlinked<T, R, N>,
    >)
        requires
            fits::<T, N>(),
        ensures
            prev matches Some(u) ==> has_non_null_ptr::<N>(u@),
    {
        let res = self.inner.swap(ptr.into_marked_ptr(), order);
        Option::<Unlinked<T, R, N>>::from_marked_ptr(res)
    }

    /// Stores a value (either null or valid) into the pointer if the current
    /// value is the same as `current`.
    ///
    /// On success the unlinked previous value, which equals `current`, is
    /// returned. On failure a [`CompareExchangeFailure`] holds both the loaded
    /// value and the value `new` whose insertion was attempted, so that it is
    /// not lost.
    pub fn compare_exchange<C, S>(
        &self,
        current: C,
        new: S,
        success: Ordering,
        failure: Ordering,
    ) -> (res: Result<C::Unlinked, CompareExchangeFailure<T, R, S, N>>) where
        C: Compare<N, Item = T, Reclaimer = R>,
        S: Store<N, Item = T, Reclaimer = R>,

        requires
            is_load_ordering(failure),
            fits::<T, N>(),
        ensures
            res matches Ok(unlinked) ==> unlinked.marked_value() == C::Unlinked::from_marked_value(
                current.marked_value(),
            ),
            res matches Err(fail) ==> fail.input.marked_value() == S::from_marked_value(
                new.marked_value(),
            ),
            res matches Err(fail) ==> (fail.loaded matches Some(loaded) ==> has_non_null_ptr::<N>(
                loaded@,
            )),
            res matches Ok(unlinked) ==> (has_non_null_ptr::<N>(current.marked_value())
                ==> unlinked.marked_value() == current.marked_value()),
            res matches Err(fail) ==> (has_non_null_ptr::<N>(new.marked_value())
                ==> fail.input.marked_value() == new.marked_value()),
            res matches Err(fail) ==> (fail.loaded matches Some(loaded) ==> loaded@
                != current.marked_value()),
    {
        let current = current.into_marked_ptr();
        let new = new.into_marked_ptr();
        proof {
            C::lemma_unlinked_admits(current@);
            if has_non_null_ptr::<N>(current@) {
                C::lemma_from_marked_value(current@);
            }
            if has_non_null_ptr::<N>(new@) {
                S::lemma_from_marked_value(new@);
            }
        }
        match self.inner.compare_exchange(current, new, success, failure) {
            Ok(_) => Ok(C::Unlinked::from_marked_ptr(current)),
            Err(found) => Err(CompareExchangeFailure::new(found, S::from_marked_ptr(new))),
        }
    }

    /// Stores a value (either null or valid) into the pointer if the current
    /// value is the same as `current`; unlike
    /// [`compare_exchange`][Atomic::compare_exchange] this may fail
    /// spuriously.
    pub fn compare_exchange_weak<C, S>(
        &self,
        current: C,
        new: S,
        success: Ordering,
        failure: Ordering,
    ) -> (res: Result<C::Unlinked, CompareExchangeFailure<T, R, S, N>>) where
        C: Compare<N, Item = T, Reclaimer = R>,
        S: Store<N, Item = T, Reclaimer = R>,

        requires
            is_load_ordering(failure),
            fits::<T, N>(),
        ensures
            res matches Ok(unlinked) ==> unlinked.marked_value() == C::Unlinked::from_marked_value(
                current.marked_value(),
            ),
            res matches Err(fail) ==> fail.input.marked_value() == S::from_marked_value(
                new.marked_value(),
            ),
            res matches Err(fail) ==> (fail.loaded matches Some(loaded) ==> has_non_null_ptr::<N>(
                loaded@,
            )),
            res matches Ok(unlinked) ==> (has_non_null_ptr::<N>(current.marked_value())
                ==> unlinked.marked_value() == current.marked_value()),
            res matches Err(fail) ==> (has_non_null_ptr::<N>(new.marked_value())
                ==> fail.input.marked_value() == new.marked_value()),
    {
        let current = current.into_marked_ptr();
        let new = new.into_marked_ptr();
        proof {
            C::lemma_unlinked_admits(current@);
            if has_non_null_ptr::<N>(current@) {
                C::lemma_from_marked_value(current@);
            }
            if has_non_null_ptr::<N>(new@) {
                S::lemma_from_marked_value(new@);
            }
        }
        match self.inner.compare_exchange_weak(current, new, success, failure) {
            Ok(_) => Ok(C::Unlinked::from_marked_ptr(current)),
            Err(found) => Err(CompareExchangeFailure::new(found, S::from_marked_ptr(new))),
        }
    }
}

impl<T, const N: usize> Atomic<T, Leaking, N> {
    /// Loads an optional [`Shared`] reference from the `Atomic`.
    ///
    /// Since [`Leaking`] never frees memory of retired records, this is
    /// always safe even without any guards.
    pub fn load_shared(&self, order: Ordering) -> (shared: Option<Shared<'_, T, Leaking, N>>)
        requires
            is_load_ordering(order),
            fits::<T, N>(),
        ensures
            shared matches Some(s) ==> has_non_null_ptr::<N>(s@),
    {
        self.load_marked_shared(order).value()
    }

    /// Loads a [`Shared`] reference wrapped in a [`Marked`] from the `Atomic`.
    ///
    /// Since [`Leaking`] never frees memory of retired records, this is
    /// always safe even without any guards.
    pub fn load_marked_shared(&self, order: Ordering) -> (shared: Marked<Shared<'_, T, Leaking, N>>)
        requires
            is_load_ordering(order),
            fits::<T, N>(),
        ensures
            shared matches Marked::Value(s) ==> has_non_null_ptr::<N>(s@),
            shared matches Marked::Null(tag) ==> is_tag::<N>(tag),
    {
        let raw = self.inner.load(order);
        proof {
            lemma_tag_is_tag::<N>(raw@);
        }
        match MarkedNonNull::new(raw) {
            Marked::Value(ptr) => Marked::Value(Shared::from_marked_non_null(ptr)),
            Marked::Null(tag) => Marked::Null(tag),
        }
    }
}

impl<T, R: Reclaim, const N: usize> Default for Atomic<T, R, N> {
    /// The default is a `null` pointer.
    fn default() -> (atomic: Self) {
        Self::null()
    }
}

impl<T, R: Reclaim, const N: usize> Internal for Atomic<T, R, N> {
}

/// The returned error type for a failed
/// [`compare_exchange`](Atomic::compare_exchange) or
/// [`compare_exchange_weak`](Atomic::compare_exchange_weak) operation.
pub struct CompareExchangeFailure<T, R, S, const N: usize> {
    /// The actually loaded value
    pub loaded: Option<Unprotected<T, R, N>>,
    /// The value with which the failed swap was attempted
    pub input: S,
}

impl<T, R, S, const N: usize> CompareExchangeFailure<T, R, S, N> {
    /// Creates the failure of a compare-and-swap that found `found` in the
    /// atomic pointer and could not store `input`; a (marked) `null` is
    /// loaded as `None`.
    pub fn new(found: MarkedPtr<T, N>, input: S) -> (failure: Self)
        requires
            fits::<T, N>(),
        ensures
            failure.loaded is None <==> found.ptr_spec() == 0,
            failure.loaded matches Some(loaded) ==> loaded@ == found@,
            failure.input == input,
    {
        CompareExchangeFailure { loaded: Option::<Unprotected<T, R, N>>::from_marked_ptr(found), input }
    }
}

} // verus!
