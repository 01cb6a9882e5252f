//! Addresses of referenced values.
use vstd::prelude::*;
use vstd::layout::align_of;

verus! {

/// Returns the numeric address of the value behind `reference`.
///
/// Calls `addr` on the raw pointer that `reference` converts to. Stated of the
/// result is what the language guarantees of every reference: it is not zero
/// and it is a multiple of the alignment of `T`. Which address a value lives at
/// is left unsaid: it depends on the machine and the allocator.
#[verifier::external_body]
pub(crate) fn address_of<T>(reference: &T) -> (addr: usize)
    ensures
        addr != 0,
        addr as nat % align_of::<T>() == 0,
{
    core::ptr::from_ref(reference).addr()
}

} // verus!
