//! A no-op memory reclamation scheme that leaks memory, mainly for exemplary
//! and testing purposes.
use core::sync::atomic::Ordering;

use vstd::prelude::*;

use crate::bits::lemma_tag_is_tag;
use crate::marked::{Marked, MarkedPointer};
use crate::raw::MarkedPtr;
use crate::reclaim::{acquire_if_equal, AcquireResult, GlobalReclaim, Protect, ProtectRegion, Reclaim};

verus! {

/// An [`Atomic`][crate::Atomic] type that uses the no-op [`Leaking`]
/// "reclamation" scheme.
pub type Atomic<T, const N: usize> = crate::atomic::Atomic<T, Leaking, N>;

/// A [`Shared`][crate::Shared] type that uses the no-op [`Leaking`]
/// "reclamation" scheme.
pub type Shared<'g, T, const N: usize> = crate::shared::Shared<'g, T, Leaking, N>;

/// An [`Unlinked`][crate::Unlinked] type that uses the no-op [`Leaking`]
/// "reclamation" scheme.
pub type Unlinked<T, const N: usize> = crate::unlinked::Unlinked<T, Leaking, N>;

/// An [`Unprotected`][crate::Unprotected] type that uses the no-op
/// [`Leaking`] "reclamation" scheme.
pub type Unprotected<T, const N: usize> = crate::unprotected::Unprotected<T, Leaking, N>;

/// A no-op memory "reclamation" scheme that deliberately leaks all memory.
#[derive(Debug, Default)]
pub struct Leaking;

impl Leaking {
    /// Leaks the given `unlinked`.
    ///
    /// This is a wrapper for [`retire`][GlobalReclaim::retire] that does not
    /// require any invariants to be maintained, because retired records are
    /// not freed but leaked.
    pub fn leak<T, const N: usize>(unlinked: Unlinked<T, N>) {
        Self::retire_unchecked(unlinked)
    }
}

/// The [`Guard`][GlobalReclaim::Guard] type for the [`Leaking`]
/// "reclamation".
#[derive(Clone, Debug, Default, Eq, Ord, PartialEq, PartialOrd)]
pub struct Guard;

impl Guard {
    /// Creates a new empty guard.
    pub fn new() -> (guard: Self) {
        Guard
    }
}

/// A record header that carries a checksum, so that the header allocated
/// alongside a record can be recognized; meant for reclamation schemes built
/// for testing. [`Leaking`] itself allocates no header (`()`).
pub struct Header {
    /// The checksum.
    pub checksum: usize,
}

impl Default for Header {
    /// The default header carries the checksum `0xDEAD_BEEF`.
    fn default() -> (header: Self)
        ensures
            header.checksum == 0xDEAD_BEEF,
    {
        Self { checksum: 0xDEAD_BEEF }
    }
}

impl GlobalReclaim for Leaking {
    type Guard = Guard;

    /// Leaks the given value.
    fn retire<T: 'static, const N: usize>(unlinked: Unlinked<T, N>) {
        let _ = unlinked;
    }

    /// Leaks the given value.
    fn retire_unchecked<T, const N: usize>(unlinked: Unlinked<T, N>) {
        let _ = unlinked;
    }
}

impl Reclaim for Leaking {
    type Local = ();

    type RecordHeader = ();

    /// Leaks the given value.
    fn retire_local<T: 'static, const N: usize>(local: &(), unlinked: Unlinked<T, N>) {
        let _ = unlinked;
    }

    /// Leaks the given value.
    fn retire_local_unchecked<T, const N: usize>(local: &(), unlinked: Unlinked<T, N>) {
        let _ = unlinked;
    }
}

impl Protect for Guard {
    type Reclaimer = Leaking;

    /// This is a no-op.
    fn release(&mut self) {
    }

    /// Acquires a value from shared memory.
    fn protect<T, const N: usize>(&mut self, atomic: &Atomic<T, N>, order: Ordering) -> (protected:
        Marked<Shared<T, N>>) {
        let raw = atomic.load_raw(order);
        proof {
            lemma_tag_is_tag::<N>(raw@);
        }
        Marked::from_marked_ptr(raw)
    }

    /// Acquires a value from shared memory if it equals `expected`.
    fn protect_if_equal<T, const N: usize>(
        &mut self,
        atomic: &Atomic<T, N>,
        expected: MarkedPtr<T, N>,
        order: Ordering,
    ) -> (protected: AcquireResult<T, Leaking, N>) {
        acquire_if_equal(atomic.load_raw(order), expected)
    }
}

impl ProtectRegion for Guard {
}

} // verus!
