//! The atomic marked pointer [`AtomicMarkedPtr`].
use core::marker::PhantomData;
use core::sync::atomic::AtomicUsize;
use core::sync::atomic::Ordering;

use vstd::prelude::*;

use crate::raw::MarkedPtr;

verus! {

/// The orderings a load may use: all but `Release` and `AcqRel`.
pub open spec fn is_load_ordering(order: Ordering) -> bool {
    order != Ordering::Release && order != Ordering::AcqRel
}

/// The orderings a store may use: all but `Acquire` and `AcqRel`.
pub open spec fn is_store_ordering(order: Ordering) -> bool {
    order != Ordering::Acquire && order != Ordering::AcqRel
}

/// Consumes the atomic integer and returns the value it holds.
///
/// Calls `AtomicUsize::into_inner`. Nothing is stated of the result: the value
/// depends on the stores that other threads made before `atomic` was handed
/// over.
#[verifier::external_body]
fn atomic_into_inner(atomic: AtomicUsize) -> usize {
    atomic.into_inner()
}

/// Stores `new` into the atomic integer if it holds `current`; returns the
/// value it held.
///
/// Calls the deprecated `AtomicUsize::compare_and_swap`. Nothing is stated of
/// the result: it depends on what other threads store concurrently.
#[verifier::external_body]
#[allow(deprecated)]
fn atomic_compare_and_swap(atomic: &AtomicUsize, current: usize, new: usize, order: Ordering) -> usize {
    atomic.compare_and_swap(current, new, order)
}

/// Stores `new` into the atomic integer if it holds `current`.
///
/// Calls `AtomicUsize::compare_exchange`. Stated is what its documentation
/// promises of either outcome: an `Ok` holds the previous value, which equals
/// `current`, and an `Err` holds the value found, which differs from `current`
/// (this operation does not fail spuriously). Which of the two comes back
/// depends on what other threads store concurrently and is left open.
#[verifier::external_body]
fn atomic_compare_exchange(
    atomic: &AtomicUsize,
    current: usize,
    new: usize,
    success: Ordering,
    failure: Ordering,
) -> (res: Result<usize, usize>)
    requires
        is_load_ordering(failure),
    ensures
        res matches Ok(prev) ==> prev == current,
        res matches Err(found) ==> found != current,
{
    atomic.compare_exchange(current, new, success, failure)
}

/// Stores `new` into the atomic integer if it holds `current`; may fail
/// spuriously.
///
/// Calls `AtomicUsize::compare_exchange_weak`. Stated is what its
/// documentation promises: an `Ok` holds the previous value, which equals
/// `current`. An `Err` may hold a value equal to `current` (a spurious
/// failure), so nothing is stated of it.
#[verifier::external_body]
fn atomic_compare_exchange_weak(
    atomic: &AtomicUsize,
    current: usize,
    new: usize,
    success: Ordering,
    failure: Ordering,
) -> (res: Result<usize, usize>)
    requires
        is_load_ordering(failure),
    ensures
        res matches Ok(prev) ==> prev == current,
{
    atomic.compare_exchange_weak(current, new, success, failure)
}

/// A raw pointer type which can be safely shared between threads, which can
/// store additional information in its lower (unused) bits.
///
/// This type has the same in-memory representation as a `usize`. It is mostly
/// identical to an atomic pointer, except that all of its methods involve a
/// [`MarkedPtr`]. What an atomic operation observes depends on the operations
/// of other threads: the contracts of the loading operations state what holds
/// of every outcome.
pub struct AtomicMarkedPtr<T, const N: usize> {
    inner: AtomicUsize,
    _marker: PhantomData<T>,
}

impl<T, const N: usize> AtomicMarkedPtr<T, N> {
    /// Creates a new `AtomicMarkedPtr`.
    pub fn new(ptr: MarkedPtr<T, N>) -> (atomic: Self) {
        Self { inner: AtomicUsize::new(ptr.into_usize()), _marker: PhantomData }
    }

    /// Creates a new & unmarked `null` pointer.
    pub fn null() -> (atomic: Self) {
        Self::new(MarkedPtr::null())
    }

    /// Consumes `self` and returns the inner [`MarkedPtr`].
    pub fn into_inner(self) -> (ptr: MarkedPtr<T, N>) {
        MarkedPtr::new(atomic_into_inner(self.inner))
    }

    /// Loads a value from the pointer.
    ///
    /// `order` describes the memory ordering of this operation; `Release` and
    /// `AcqRel` are not allowed.
    pub fn load(&self, order: Ordering) -> (ptr: MarkedPtr<T, N>)
        requires
            is_load_ordering(order),
    {
        MarkedPtr::new(self.inner.load(order))
    }

    /// Stores a value into the pointer.
    ///
    /// `order` describes the memory ordering of this operation; `Acquire` and
    /// `AcqRel` are not allowed.
    pub fn store(&self, ptr: MarkedPtr<T, N>, order: Ordering)
        requires
            is_store_ordering(order),
    {
        self.inner.store(ptr.into_usize(), order);
    }

    /// Stores a value into the pointer, returning the previous value.
    pub fn swap(&self, ptr: MarkedPtr<T, N>, order: Ordering) -> (prev: MarkedPtr<T, N>) {
        MarkedPtr::new(self.inner.swap(ptr.into_usize(), order))
    }

    /// Stores a value into the pointer if the current value is the same as
    /// `current`; returns the previous value.
    pub fn compare_and_swap(
        &self,
        current: MarkedPtr<T, N>,
        new: MarkedPtr<T, N>,
        order: Ordering,
    ) -> (prev: MarkedPtr<T, N>) {
        MarkedPtr::new(
            atomic_compare_and_swap(&self.inner, current.into_usize(), new.into_usize(), order),
        )
    }

    /// Stores a value into the pointer if the current value is the same as
    /// `current`.
    ///
    /// The result is `Ok` with the previous value if `new` was written and
    /// `Err` with the loaded value otherwise. `failure` may be neither
    /// `Release` nor `AcqRel`.
    pub fn compare_exchange(
        &self,
        current: MarkedPtr<T, N>,
        new: MarkedPtr<T, N>,
        success: Ordering,
        failure: Ordering,
    ) -> (res: Result<MarkedPtr<T, N>, MarkedPtr<T, N>>)
        requires
            is_load_ordering(failure),
        ensures
            res matches Ok(prev) ==> prev@ == current@,
            res matches Err(found) ==> found@ != current@,
    {
        match atomic_compare_exchange(&self.inner, current.into_usize(), new.into_usize(), success, failure) {
            Ok(prev) => Ok(MarkedPtr::new(prev)),
            Err(prev) => Err(MarkedPtr::new(prev)),
        }
    }

    /// Stores a value into the pointer if the current value is the same as
    /// `current`; unlike [`compare_exchange`][AtomicMarkedPtr::compare_exchange]
    /// this may fail spuriously.
    pub fn compare_exchange_weak(
        &self,
        current: MarkedPtr<T, N>,
        new: MarkedPtr<T, N>,
        success: Ordering,
        failure: Ordering,
    ) -> (res: Result<MarkedPtr<T, N>, MarkedPtr<T, N>>)
        requires
            is_load_ordering(failure),
        ensures
            res matches Ok(prev) ==> prev@ == current@,
    {
        match atomic_compare_exchange_weak(
            &self.inner,
            current.into_usize(),
            new.into_usize(),
            success,
            failure,
        ) {
            Ok(prev) => Ok(MarkedPtr::new(prev)),
            Err(prev) => Err(MarkedPtr::new(prev)),
        }
    }
}

impl<T, const N: usize> Default for AtomicMarkedPtr<T, N> {
    /// The default is a `null` pointer.
    fn default() -> (atomic: Self) {
        Self::null()
    }
}

} // verus!
