//! Marked pointers and the building blocks of concurrent memory reclamation.
//!
//! Lock-free data structures work on atomic pointers to heap allocated
//! records and commonly use the lower, always-zero bits of such pointers to
//! store a small tag alongside the address. This crate provides marked pointer
//! types whose tagging arithmetic is verified, together with the traits and
//! reference types through which reclamation schemes decide when a removed
//! (*unlinked*) record may be freed.
mod address;
pub mod align;
pub mod atomic;
pub mod atomic_ptr;
pub mod bits;
pub mod leak;
pub mod marked;
pub mod non_null;
pub mod raw;
pub mod reclaim;
pub mod shared;
pub mod unlinked;
pub mod unprotected;
pub mod util;

pub use crate::atomic::{Atomic, CompareExchangeFailure};
pub use crate::atomic_ptr::AtomicMarkedPtr;
pub use crate::marked::{InvalidNullError, Marked, MarkedPointer, NonNullable};
pub use crate::non_null::MarkedNonNull;
pub use crate::raw::MarkedPtr;
pub use crate::reclaim::{
    acquire_if_equal, header_address, record_address, AcquireResult, GlobalReclaim, Guarded, NotEqualError, Protect, ProtectRegion, Reclaim, Record,
};
pub use crate::shared::Shared;
pub use crate::unlinked::Unlinked;
pub use crate::unprotected::Unprotected;
