//! Integer arithmetic of marked pointers.
//!
//! A marked pointer is the numeric address of a value of type `T` whose lowest
//! bits, which are always zero for a properly aligned address, carry a small
//! integer (the *tag*). With `n` mark bits the tag occupies the bits selected
//! by the mask `2^n - 1`; the remaining bits are the address.
use vstd::prelude::*;
use vstd::arithmetic::logarithm::{log, lemma_log_pow};
use vstd::arithmetic::power::pow;
use vstd::arithmetic::div_mod::{lemma_fundamental_div_mod, lemma_mod_multiples_vanish, lemma_small_mod};
use vstd::arithmetic::power2::{
    pow2, is_pow2, is_pow2_equiv, lemma_pow2, lemma_pow2_pos, lemma_pow2_strictly_increases, lemma2_to64,
    lemma2_to64_rest,
};
use vstd::bits::{
    low_bits_mask, lemma_usize_low_bits_mask_is_mod, lemma_usize_shl_is_mul,
    lemma_usize_pow2_no_overflow,
};
use vstd::layout::{align_of, layout_for_type_is_valid, valid_layout};
use vstd::std_specs::bits::{u64_trailing_zeros, axiom_u64_trailing_zeros};

verus! {

/// The number of low bits that are always zero in an address of a `T`: the
/// base-2 logarithm of `T`'s alignment.
pub open spec fn lower_bits_of<T>() -> nat {
    log(2, align_of::<T>() as int) as nat
}

/// `n` mark bits can be used for pointers to `T`.
pub open spec fn mark_bits_fit<T>(n: nat) -> bool {
    n <= lower_bits_of::<T>()
}

/// The `N` mark bits of a pointer type fit pointers to `T`.
pub open spec fn fits<T, const N: usize>() -> bool {
    mark_bits_fit::<T>(N as nat)
}

/// The bitmask selecting the `n` lowest bits.
pub open spec fn mask_of(n: nat) -> nat {
    (pow2(n) - 1) as nat
}

/// The tag stored in the `n` lowest bits of `marked`.
pub open spec fn tag_of(marked: nat, n: nat) -> nat {
    marked % pow2(n)
}

/// The address part of `marked`: `marked` with its `n` lowest bits cleared.
pub open spec fn ptr_of(marked: nat, n: nat) -> nat {
    (marked - marked % pow2(n)) as nat
}

/// The marked pointer that carries `tag`, truncated to `n` bits, alongside the
/// address `ptr`.
pub open spec fn composed(ptr: nat, tag: nat, n: nat) -> nat {
    ptr + tag % pow2(n)
}

/// An address whose `n` lowest bits are all zero.
pub open spec fn is_aligned_to(ptr: nat, n: nat) -> bool {
    ptr % pow2(n) == 0
}

/// The alignment of every type is a power of two that fits in a `usize`, so
/// its logarithm is smaller than the width of a `usize`.
pub proof fn lemma_lower_bits_of<T>()
    requires
        valid_layout(vstd::layout::size_of::<T>() as usize, align_of::<T>() as usize),
        align_of::<T>() as usize as nat == align_of::<T>(),
    ensures
        pow2(lower_bits_of::<T>()) == align_of::<T>(),
        lower_bits_of::<T>() < usize::BITS,
{
    let a = align_of::<T>() as int;
    broadcast use is_pow2_equiv;
    assert(is_pow2(a));
    let k = choose|i: nat| pow(2, i) == a;
    lemma_log_pow(2, k);
    lemma_pow2(k);
    assert(lower_bits_of::<T>() == k);
    if k >= usize::BITS {
        lemma2_to64();
        lemma2_to64_rest();
        if k > usize::BITS {
            lemma_pow2_strictly_increases(usize::BITS as nat, k);
        }
        assert(pow2(usize::BITS as nat) > usize::MAX);
        assert(false);
    }
}


/// Decomposing a composed marked pointer gives back the address and the tag
/// truncated to the mark bits.
pub proof fn lemma_decompose_composed(ptr: nat, tag: nat, n: nat)
    requires
        is_aligned_to(ptr, n),
    ensures
        ptr_of(composed(ptr, tag, n), n) == ptr,
        tag_of(composed(ptr, tag, n), n) == tag % pow2(n),
{
    let d = pow2(n) as int;
    lemma_pow2_pos(n);
    let r = tag % pow2(n);
    lemma_fundamental_div_mod(ptr as int, d);
    lemma_mod_multiples_vanish(ptr as int / d, r as int, d);
    lemma_small_mod(r, pow2(n));
}

/// Composing the address and the tag of a marked pointer gives back the
/// marked pointer; its address part is aligned to the mark bits.
pub proof fn lemma_composed_decomposed(marked: nat, n: nat)
    ensures
        is_aligned_to(ptr_of(marked, n), n),
        composed(ptr_of(marked, n), tag_of(marked, n), n) == marked,
        ptr_of(marked, n) <= marked,
{
    let d = pow2(n) as int;
    lemma_pow2_pos(n);
    lemma_fundamental_div_mod(marked as int, d);
    lemma_mod_multiples_vanish(marked as int / d, 0, d);
    assert(ptr_of(marked, n) == d * (marked as int / d));
    lemma_small_mod(marked % pow2(n), pow2(n));
}

/// The address part of `marked` with `N` mark bits is not null.
pub open spec fn has_non_null_ptr<const N: usize>(marked: usize) -> bool {
    ptr_of(marked as nat, N as nat) != 0
}

/// `tag` fits into `N` mark bits.
pub open spec fn is_tag<const N: usize>(tag: usize) -> bool {
    (tag as nat) < pow2(N as nat)
}

/// The tag of a marked pointer fits into its mark bits.
pub proof fn lemma_tag_is_tag<const N: usize>(marked: usize)
    ensures
        is_tag::<N>(tag_of(marked as nat, N as nat) as usize),
        tag_of(marked as nat, N as nat) <= marked,
{
    lemma_pow2_pos(N as nat);
    lemma_mod_le(marked as nat, N as nat);
}

/// A tag held in `n` mark bits is smaller than `2^n`.
pub proof fn lemma_tag_bound(marked: nat, n: nat)
    ensures
        tag_of(marked, n) < pow2(n),
{
    lemma_pow2_pos(n);
}

/// Truncating to the mark bits never makes a value larger.
pub proof fn lemma_mod_le(x: nat, n: nat)
    ensures
        x % pow2(n) <= x,
{
    lemma_pow2_pos(n);
    vstd::arithmetic::div_mod::lemma_mod_decreases(x, pow2(n));
}

/// The null address is aligned to every number of mark bits.
pub proof fn lemma_null_aligned(n: nat)
    ensures
        is_aligned_to(0, n),
{
    lemma_pow2_pos(n);
}

/// Replacing the tag of a marked pointer twice keeps only the second tag.
pub proof fn lemma_retag(marked: nat, first: nat, second: nat, n: nat)
    ensures
        composed(ptr_of(composed(ptr_of(marked, n), first, n), n), second, n) == composed(
            ptr_of(marked, n),
            second,
            n,
        ),
{
    lemma_composed_decomposed(marked, n);
    lemma_decompose_composed(ptr_of(marked, n), first, n);
}

/// A re-tagged marked pointer has the same address as the original one.
pub proof fn lemma_retag_keeps_ptr(marked: nat, tag: nat, n: nat)
    ensures
        ptr_of(composed(ptr_of(marked, n), tag, n), n) == ptr_of(marked, n),
        tag_of(composed(ptr_of(marked, n), tag, n), n) == tag % pow2(n),
{
    lemma_composed_decomposed(marked, n);
    lemma_decompose_composed(ptr_of(marked, n), tag, n);
}

/// A tag that already fits into the mark bits is not changed by truncation.
pub proof fn lemma_tag_fits(tag: nat, n: nat)
    requires
        tag < pow2(n) || tag == 0,
    ensures
        tag % pow2(n) == tag,
{
    lemma_pow2_pos(n);
    lemma_small_mod(tag, pow2(n));
}

/// An address aligned to `2^big` is aligned to `2^small` for `small <= big`.
pub proof fn lemma_aligned_weaken(x: nat, small: nat, big: nat)
    requires
        small <= big,
        is_aligned_to(x, big),
    ensures
        is_aligned_to(x, small),
{
    let d = (big - small) as nat;
    vstd::arithmetic::power2::lemma_pow2_adds(small, d);
    assert(small + d == big);
    lemma_pow2_pos(big);
    lemma_pow2_pos(small);
    lemma_fundamental_div_mod(x as int, pow2(big) as int);
    let k = x as int / pow2(big) as int;
    assert(x == pow2(big) * k);
    vstd::arithmetic::mul::lemma_mul_is_associative(pow2(small) as int, pow2(d) as int, k);
    assert(x == pow2(small) * (pow2(d) * k));
    vstd::arithmetic::mul::lemma_mul_is_commutative(pow2(small) as int, pow2(d) * k);
    vstd::arithmetic::div_mod::lemma_mod_multiples_basic(pow2(d) * k, pow2(small) as int);
}

/// A type whose alignment is a multiple of `2^n` has room for `n` mark bits.
pub proof fn lemma_mark_bits_fit_divides<T>(n: nat)
    requires
        valid_layout(vstd::layout::size_of::<T>() as usize, align_of::<T>() as usize),
        align_of::<T>() as usize as nat == align_of::<T>(),
        align_of::<T>() % pow2(n) == 0,
    ensures
        mark_bits_fit::<T>(n),
{
    let k = lower_bits_of::<T>();
    lemma_lower_bits_of::<T>();
    lemma_pow2_pos(k);
    if n > k {
        lemma_pow2_strictly_increases(k, n);
        lemma_small_mod(pow2(k), pow2(n));
    }
}

/// An address aligned to the alignment of `T` leaves room for every number of
/// mark bits that fits `T`.
pub proof fn lemma_type_aligned<T>(x: nat, n: nat)
    requires
        valid_layout(vstd::layout::size_of::<T>() as usize, align_of::<T>() as usize),
        align_of::<T>() as usize as nat == align_of::<T>(),
        x % align_of::<T>() == 0,
        mark_bits_fit::<T>(n),
    ensures
        is_aligned_to(x, n),
        is_aligned_to(align_of::<T>(), n),
        align_of::<T>() > 0,
{
    lemma_lower_bits_of::<T>();
    lemma_pow2_pos(lower_bits_of::<T>());
    lemma_aligned_weaken(x, n, lower_bits_of::<T>());
    vstd::arithmetic::div_mod::lemma_mod_self_0(align_of::<T>() as int);
    lemma_aligned_weaken(align_of::<T>(), n, lower_bits_of::<T>());
}


/// The mask `(1 << n) - 1` as the machine computes it.
spec fn low_mask(n: usize) -> usize {
    ((1usize << n) - 1) as usize
}

/// `1 << n` is `2^n` and the mask `(1 << n) - 1` selects the remainder by `2^n`.
proof fn lemma_mask_arith(x: usize, n: usize)
    requires
        n < usize::BITS,
    ensures
        (1usize << n) == pow2(n as nat),
        low_mask(n) == mask_of(n as nat),
        (1usize << n) >= 1,
        x & low_mask(n) == x as nat % pow2(n as nat),
        x & !low_mask(n) == x - x as nat % pow2(n as nat),
{
    lemma_usize_pow2_no_overflow(n as nat);
    lemma_usize_shl_is_mul(1, n);
    lemma_usize_low_bits_mask_is_mod(x, n as nat);
    assert(low_bits_mask(n as nat) == pow2(n as nat) - 1);
    let m = low_mask(n);
    assert((x & !m) + (x & m) == x) by (bit_vector);
}

/// Or-ing a tag masked to `n` bits into an address aligned to `2^n` adds it.
proof fn lemma_compose_arith(ptr: usize, tag: usize, n: usize)
    requires
        n < usize::BITS,
        ptr as nat % pow2(n as nat) == 0,
    ensures
        ptr | (low_mask(n) & tag) == ptr + tag as nat % pow2(n as nat),
{
    lemma_mask_arith(ptr, n);
    lemma_mask_arith(tag, n);
    let m = low_mask(n);
    assert(m & tag == tag & m) by (bit_vector);
    assert(ptr | (m & tag) == ptr + (m & tag)) by (bit_vector)
        requires
            ptr & m == 0,
    ;
}

/// Returns the number of unused (markable) lower bits in a pointer to a `T`.
pub fn lower_bits<T>() -> (bits: usize)
    ensures
        bits == lower_bits_of::<T>(),
        pow2(bits as nat) == align_of::<T>(),
        bits < usize::BITS,
{
    layout_for_type_is_valid::<T>();
    proof {
        lemma_lower_bits_of::<T>();
    }
    let align = core::mem::align_of::<T>();
    let wide = align as u64;
    let zeros = wide.trailing_zeros();
    proof {
        let k = lower_bits_of::<T>();
        let kk = k as usize;
        axiom_u64_trailing_zeros(wide);
        lemma_usize_pow2_no_overflow(k);
        lemma_usize_shl_is_mul(1, kk);
        assert(align == (1usize << kk));
        assert(wide == (1u64 << (kk as u64)) && kk < 64) by (bit_vector)
            requires
                align == (1usize << kk),
                wide == align as u64,
                kk < usize::BITS,
        ;
        let z = u64_trailing_zeros(wide);
        assert(z == kk) by (bit_vector)
            requires
                wide == (1u64 << (kk as u64)),
                kk < 64,
                0 <= z <= 64,
                wide == 0 <==> z == 64,
                0 <= z < 64 ==> (wide >> z as u64) & 1u64 == 1u64,
                wide << ((64 - z) as u64) == 0,
        ;
    }
    zeros as usize
}

/// Returns the bitmask of the `mark_bits` lowest bits of a pointer to a `T`.
pub fn mark_mask<T>(mark_bits: usize) -> (mask: usize)
    requires
        mark_bits_fit::<T>(mark_bits as nat),
    ensures
        mask == mask_of(mark_bits as nat),
{
    layout_for_type_is_valid::<T>();
    proof {
        lemma_lower_bits_of::<T>();
        lemma_mask_arith(0, mark_bits);
    }
    (1usize << mark_bits) - 1
}

/// Decomposes the integer representation of a marked pointer into *only* the
/// tag.
pub fn decompose_tag<T>(marked: usize, mark_bits: usize) -> (tag: usize)
    requires
        mark_bits_fit::<T>(mark_bits as nat),
    ensures
        tag == tag_of(marked as nat, mark_bits as nat),
{
    let mask = mark_mask::<T>(mark_bits);
    layout_for_type_is_valid::<T>();
    proof {
        lemma_lower_bits_of::<T>();
        lemma_mask_arith(marked, mark_bits);
    }
    marked & mask
}

/// Decomposes the integer representation of a marked pointer into the address
/// stripped of its tag.
pub fn decompose_ptr<T>(marked: usize, mark_bits: usize) -> (ptr: usize)
    requires
        mark_bits_fit::<T>(mark_bits as nat),
    ensures
        ptr == ptr_of(marked as nat, mark_bits as nat),
{
    let mask = mark_mask::<T>(mark_bits);
    layout_for_type_is_valid::<T>();
    proof {
        lemma_lower_bits_of::<T>();
        lemma_mask_arith(marked, mark_bits);
    }
    marked & !mask
}

/// Decomposes the integer representation of a marked pointer into the address
/// and its tag.
pub fn decompose<T>(marked: usize, mark_bits: usize) -> (parts: (usize, usize))
    requires
        mark_bits_fit::<T>(mark_bits as nat),
    ensures
        parts.0 == ptr_of(marked as nat, mark_bits as nat),
        parts.1 == tag_of(marked as nat, mark_bits as nat),
{
    (decompose_ptr::<T>(marked, mark_bits), decompose_tag::<T>(marked, mark_bits))
}

/// Composes a marked pointer from an unmarked address and a tag.
///
/// If the tag does not fit into the `N` mark bits it is truncated.
pub fn compose<T, const N: usize>(ptr: usize, tag: usize) -> (marked: usize)
    requires
        mark_bits_fit::<T>(N as nat),
        is_aligned_to(ptr as nat, N as nat),
    ensures
        marked == composed(ptr as nat, tag as nat, N as nat),
{
    let mask = mark_mask::<T>(N);
    layout_for_type_is_valid::<T>();
    proof {
        lemma_lower_bits_of::<T>();
        lemma_mask_arith(ptr, N);
        lemma_compose_arith(ptr, tag, N);
    }
    ptr | (mask & tag)
}

} // verus!
