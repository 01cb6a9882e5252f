# reclaim

Marked pointers and the building blocks of concurrent memory reclamation.

Lock-free data structures work on atomic pointers to heap allocated records
and commonly store a small tag in the lower bits of such a pointer, bits that
are always zero because of the pointed-to type's alignment. This crate provides
marked pointer types whose tagging arithmetic is proved with Verus, the enum
`Marked` for nullable marked values, the reference types `Shared`, `Unlinked`
and `Unprotected`, the atomic pointer `Atomic`, and the traits `Reclaim`,
`GlobalReclaim`, `Protect` and `ProtectRegion` that reclamation schemes
implement. `leak::Leaking` is a scheme that never frees memory.

## Layout

- `src/` is the verified library.
  - `bits.rs`: the arithmetic of tags and addresses (`lower_bits`,
    `mark_mask`, `compose`, `decompose*`) and its laws.
  - `raw.rs`, `non_null.rs`, `atomic_ptr.rs`: `MarkedPtr`, `MarkedNonNull`
    and `AtomicMarkedPtr`. Pointers are held as their numeric address.
  - `marked.rs`: `Marked`, `MarkedPointer`, `NonNullable`.
  - `shared.rs`, `unlinked.rs`, `unprotected.rs`, `atomic.rs`,
    `reclaim.rs`, `leak.rs`: the reclamation interface.
  - `align.rs`: `Aligned` and the alignment marker types, with their
    alignments and the number of mark bits an `Aligned` value leaves.
  - `util.rs`: `UnwrapUnchecked`.
- `app/` holds what turns addresses back into references or frees memory,
  which takes `unsafe` code: the heap allocating `Owned`, de-referencing of the
  pointer and reference types, address arithmetic of `Record`s and the
  type-erased `Retired`.
- `tests/` runs the library.

The number of mark bits `N` is a const generic parameter; operations that
separate tag and address require that `N` does not exceed the base-2 logarithm
of the alignment of the pointed-to type. Tags that do not fit into `N` bits are
truncated.
