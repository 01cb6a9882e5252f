//! Wrapper types that raise the alignment of a value, so that pointers to it
//! have more markable lower bits.
use core::fmt::Debug;

use vstd::prelude::*;
use vstd::arithmetic::power2::pow2;
use vstd::layout::{align_of, layout_for_type_is_valid};

use elain::Align;

use crate::bits::{lemma_mark_bits_fit_divides, lower_bits, mark_bits_fit};

verus! {

/// A zero-sized marker type whose alignment is a power of two.
pub trait Alignment: Copy + Clone + Default + Debug + Eq + Ord + PartialEq + PartialOrd {
    /// Returns the alignment of the marker type in bytes.
    fn alignment() -> (align: usize)
        ensures
            align == align_of::<Self>(),
    ;
}

/// A zero-sized marker type with an alignment of (at least) 1 byte.
///
/// Its only field is an `elain::Align<1>`, which carries the alignment; the
/// field is hidden from verification.
#[verifier::external_body]
#[derive(Copy, Debug, Default, Eq, Ord, PartialEq, PartialOrd)]
pub struct Alignment1(Align<1>);

impl Clone for Alignment1 {
    fn clone(&self) -> (copy: Self) {
        *self
    }
}

impl Alignment for Alignment1 {
    fn alignment() -> (align: usize)
        ensures
            align % 1 == 0,
    {
        align_of_alignment1()
    }
}

/// Returns the alignment of [`Alignment1`].
///
/// Calls `core::mem::align_of`. elain documents that `Align<1>` has an
/// alignment of 1 and that a type holding it is aligned to at least
/// 1; alignments are powers of two, so the marker's alignment is a
/// multiple of 1. Its exact value is left unsaid.
#[verifier::external_body]
fn align_of_alignment1() -> (align: usize)
    ensures
        align % 1 == 0,
        align == align_of::<Alignment1>(),
{
    core::mem::align_of::<Alignment1>()
}

/// A zero-sized marker type with an alignment of (at least) 2 bytes.
///
/// Its only field is an `elain::Align<2>`, which carries the alignment; the
/// field is hidden from verification.
#[verifier::external_body]
#[derive(Copy, Debug, Default, Eq, Ord, PartialEq, PartialOrd)]
pub struct Alignment2(Align<2>);

impl Clone for Alignment2 {
    fn clone(&self) -> (copy: Self) {
        *self
    }
}

impl Alignment for Alignment2 {
    fn alignment() -> (align: usize)
        ensures
            align % 2 == 0,
    {
        align_of_alignment2()
    }
}

/// Returns the alignment of [`Alignment2`].
///
/// Calls `core::mem::align_of`. elain documents that `Align<2>` has an
/// alignment of 2 and that a type holding it is aligned to at least
/// 2; alignments are powers of two, so the marker's alignment is a
/// multiple of 2. Its exact value is left unsaid.
#[verifier::external_body]
fn align_of_alignment2() -> (align: usize)
    ensures
        align % 2 == 0,
        align == align_of::<Alignment2>(),
{
    core::mem::align_of::<Alignment2>()
}

/// A zero-sized marker type with an alignment of (at least) 4 bytes.
///
/// Its only field is an `elain::Align<4>`, which carries the alignment; the
/// field is hidden from verification.
#[verifier::external_body]
#[derive(Copy, Debug, Default, Eq, Ord, PartialEq, PartialOrd)]
pub struct Alignment4(Align<4>);

impl Clone for Alignment4 {
    fn clone(&self) -> (copy: Self) {
        *self
    }
}

impl Alignment for Alignment4 {
    fn alignment() -> (align: usize)
        ensures
            align % 4 == 0,
    {
        align_of_alignment4()
    }
}

/// Returns the alignment of [`Alignment4`].
///
/// Calls `core::mem::align_of`. elain documents that `Align<4>` has an
/// alignment of 4 and that a type holding it is aligned to at least
/// 4; alignments are powers of two, so the marker's alignment is a
/// multiple of 4. Its exact value is left unsaid.
#[verifier::external_body]
fn align_of_alignment4() -> (align: usize)
    ensures
        align % 4 == 0,
        align == align_of::<Alignment4>(),
{
    core::mem::align_of::<Alignment4>()
}

/// A zero-sized marker type with an alignment of (at least) 8 bytes.
///
/// Its only field is an `elain::Align<8>`, which carries the alignment; the
/// field is hidden from verification.
#[verifier::external_body]
#[derive(Copy, Debug, Default, Eq, Ord, PartialEq, PartialOrd)]
pub struct Alignment8(Align<8>);

impl Clone for Alignment8 {
    fn clone(&self) -> (copy: Self) {
        *self
    }
}

impl Alignment for Alignment8 {
    fn alignment() -> (align: usize)
        ensures
            align % 8 == 0,
    {
        align_of_alignment8()
    }
}

/// Returns the alignment of [`Alignment8`].
///
/// Calls `core::mem::align_of`. elain documents that `Align<8>` has an
/// alignment of 8 and that a type holding it is aligned to at least
/// 8; alignments are powers of two, so the marker's alignment is a
/// multiple of 8. Its exact value is left unsaid.
#[verifier::external_body]
fn align_of_alignment8() -> (align: usize)
    ensures
        align % 8 == 0,
        align == align_of::<Alignment8>(),
{
    core::mem::align_of::<Alignment8>()
}

/// A zero-sized marker type with an alignment of (at least) 16 bytes.
///
/// Its only field is an `elain::Align<16>`, which carries the alignment; the
/// field is hidden from verification.
#[verifier::external_body]
#[derive(Copy, Debug, Default, Eq, Ord, PartialEq, PartialOrd)]
pub struct Alignment16(Align<16>);

impl Clone for Alignment16 {
    fn clone(&self) -> (copy: Self) {
        *self
    }
}

impl Alignment for Alignment16 {
    fn alignment() -> (align: usize)
        ensures
            align % 16 == 0,
    {
        align_of_alignment16()
    }
}

/// Returns the alignment of [`Alignment16`].
///
/// Calls `core::mem::align_of`. elain documents that `Align<16>` has an
/// alignment of 16 and that a type holding it is aligned to at least
/// 16; alignments are powers of two, so the marker's alignment is a
/// multiple of 16. Its exact value is left unsaid.
#[verifier::external_body]
fn align_of_alignment16() -> (align: usize)
    ensures
        align % 16 == 0,
        align == align_of::<Alignment16>(),
{
    core::mem::align_of::<Alignment16>()
}

/// A zero-sized marker type with an alignment of (at least) 32 bytes.
///
/// Its only field is an `elain::Align<32>`, which carries the alignment; the
/// field is hidden from verification.
#[verifier::external_body]
#[derive(Copy, Debug, Default, Eq, Ord, PartialEq, PartialOrd)]
pub struct Alignment32(Align<32>);

impl Clone for Alignment32 {
    fn clone(&self) -> (copy: Self) {
        *self
    }
}

impl Alignment for Alignment32 {
    fn alignment() -> (align: usize)
        ensures
            align % 32 == 0,
    {
        align_of_alignment32()
    }
}

/// Returns the alignment of [`Alignment32`].
///
/// Calls `core::mem::align_of`. elain documents that `Align<32>` has an
/// alignment of 32 and that a type holding it is aligned to at least
/// 32; alignments are powers of two, so the marker's alignment is a
/// multiple of 32. Its exact value is left unsaid.
#[verifier::external_body]
fn align_of_alignment32() -> (align: usize)
    ensures
        align % 32 == 0,
        align == align_of::<Alignment32>(),
{
    core::mem::align_of::<Alignment32>()
}

/// A zero-sized marker type with an alignment of (at least) 64 bytes.
///
/// Its only field is an `elain::Align<64>`, which carries the alignment; the
/// field is hidden from verification.
#[verifier::external_body]
#[derive(Copy, Debug, Default, Eq, Ord, PartialEq, PartialOrd)]
pub struct Alignment64(Align<64>);

impl Clone for Alignment64 {
    fn clone(&self) -> (copy: Self) {
        *self
    }
}

impl Alignment for Alignment64 {
    fn alignment() -> (align: usize)
        ensures
            align % 64 == 0,
    {
        align_of_alignment64()
    }
}

/// Returns the alignment of [`Alignment64`].
///
/// Calls `core::mem::align_of`. elain documents that `Align<64>` has an
/// alignment of 64 and that a type holding it is aligned to at least
/// 64; alignments are powers of two, so the marker's alignment is a
/// multiple of 64. Its exact value is left unsaid.
#[verifier::external_body]
fn align_of_alignment64() -> (align: usize)
    ensures
        align % 64 == 0,
        align == align_of::<Alignment64>(),
{
    core::mem::align_of::<Alignment64>()
}

/// A zero-sized marker type with an alignment of (at least) 128 bytes.
///
/// Its only field is an `elain::Align<128>`, which carries the alignment; the
/// field is hidden from verification.
#[verifier::external_body]
#[derive(Copy, Debug, Default, Eq, Ord, PartialEq, PartialOrd)]
pub struct Alignment128(Align<128>);

impl Clone for Alignment128 {
    fn clone(&self) -> (copy: Self) {
        *self
    }
}

impl Alignment for Alignment128 {
    fn alignment() -> (align: usize)
        ensures
            align % 128 == 0,
    {
        align_of_alignment128()
    }
}

/// Returns the alignment of [`Alignment128`].
///
/// Calls `core::mem::align_of`. elain documents that `Align<128>` has an
/// alignment of 128 and that a type holding it is aligned to at least
/// 128; alignments are powers of two, so the marker's alignment is a
/// multiple of 128. Its exact value is left unsaid.
#[verifier::external_body]
fn align_of_alignment128() -> (align: usize)
    ensures
        align % 128 == 0,
        align == align_of::<Alignment128>(),
{
    core::mem::align_of::<Alignment128>()
}

/// A zero-sized marker type with an alignment of (at least) 256 bytes.
///
/// Its only field is an `elain::Align<256>`, which carries the alignment; the
/// field is hidden from verification.
#[verifier::external_body]
#[derive(Copy, Debug, Default, Eq, Ord, PartialEq, PartialOrd)]
pub struct Alignment256(Align<256>);

impl Clone for Alignment256 {
    fn clone(&self) -> (copy: Self) {
        *self
    }
}

impl Alignment for Alignment256 {
    fn alignment() -> (align: usize)
        ensures
            align % 256 == 0,
    {
        align_of_alignment256()
    }
}

/// Returns the alignment of [`Alignment256`].
///
/// Calls `core::mem::align_of`. elain documents that `Align<256>` has an
/// alignment of 256 and that a type holding it is aligned to at least
/// 256; alignments are powers of two, so the marker's alignment is a
/// multiple of 256. Its exact value is left unsaid.
#[verifier::external_body]
fn align_of_alignment256() -> (align: usize)
    ensures
        align % 256 == 0,
        align == align_of::<Alignment256>(),
{
    core::mem::align_of::<Alignment256>()
}

/// A zero-sized marker type with an alignment of (at least) 512 bytes.
///
/// Its only field is an `elain::Align<512>`, which carries the alignment; the
/// field is hidden from verification.
#[verifier::external_body]
#[derive(Copy, Debug, Default, Eq, Ord, PartialEq, PartialOrd)]
pub struct Alignment512(Align<512>);

impl Clone for Alignment512 {
    fn clone(&self) -> (copy: Self) {
        *self
    }
}

impl Alignment for Alignment512 {
    fn alignment() -> (align: usize)
        ensures
            align % 512 == 0,
    {
        align_of_alignment512()
    }
}

/// Returns the alignment of [`Alignment512`].
///
/// Calls `core::mem::align_of`. elain documents that `Align<512>` has an
/// alignment of 512 and that a type holding it is aligned to at least
/// 512; alignments are powers of two, so the marker's alignment is a
/// multiple of 512. Its exact value is left unsaid.
#[verifier::external_body]
fn align_of_alignment512() -> (align: usize)
    ensures
        align % 512 == 0,
        align == align_of::<Alignment512>(),
{
    core::mem::align_of::<Alignment512>()
}

/// A zero-sized marker type with an alignment of (at least) 1024 bytes.
///
/// Its only field is an `elain::Align<1024>`, which carries the alignment; the
/// field is hidden from verification.
#[verifier::external_body]
#[derive(Copy, Debug, Default, Eq, Ord, PartialEq, PartialOrd)]
pub struct Alignment1K(Align<1024>);

impl Clone for Alignment1K {
    fn clone(&self) -> (copy: Self) {
        *self
    }
}

impl Alignment for Alignment1K {
    fn alignment() -> (align: usize)
        ensures
            align % 1024 == 0,
    {
        align_of_alignment1k()
    }
}

/// Returns the alignment of [`Alignment1K`].
///
/// Calls `core::mem::align_of`. elain documents that `Align<1024>` has an
/// alignment of 1024 and that a type holding it is aligned to at least
/// 1024; alignments are powers of two, so the marker's alignment is a
/// multiple of 1024. Its exact value is left unsaid.
#[verifier::external_body]
fn align_of_alignment1k() -> (align: usize)
    ensures
        align % 1024 == 0,
        align == align_of::<Alignment1K>(),
{
    core::mem::align_of::<Alignment1K>()
}

/// A zero-sized marker type with an alignment of (at least) 2048 bytes.
///
/// Its only field is an `elain::Align<2048>`, which carries the alignment; the
/// field is hidden from verification.
#[verifier::external_body]
#[derive(Copy, Debug, Default, Eq, Ord, PartialEq, PartialOrd)]
pub struct Alignment2K(Align<2048>);

impl Clone for Alignment2K {
    fn clone(&self) -> (copy: Self) {
        *self
    }
}

impl Alignment for Alignment2K {
    fn alignment() -> (align: usize)
        ensures
            align % 2048 == 0,
    {
        align_of_alignment2k()
    }
}

/// Returns the alignment of [`Alignment2K`].
///
/// Calls `core::mem::align_of`. elain documents that `Align<2048>` has an
/// alignment of 2048 and that a type holding it is aligned to at least
/// 2048; alignments are powers of two, so the marker's alignment is a
/// multiple of 2048. Its exact value is left unsaid.
#[verifier::external_body]
fn align_of_alignment2k() -> (align: usize)
    ensures
        align % 2048 == 0,
        align == align_of::<Alignment2K>(),
{
    core::mem::align_of::<Alignment2K>()
}

/// A zero-sized marker type with an alignment of (at least) 4096 bytes.
///
/// Its only field is an `elain::Align<4096>`, which carries the alignment; the
/// field is hidden from verification.
#[verifier::external_body]
#[derive(Copy, Debug, Default, Eq, Ord, PartialEq, PartialOrd)]
pub struct Alignment4K(Align<4096>);

impl Clone for Alignment4K {
    fn clone(&self) -> (copy: Self) {
        *self
    }
}

impl Alignment for Alignment4K {
    fn alignment() -> (align: usize)
        ensures
            align % 4096 == 0,
    {
        align_of_alignment4k()
    }
}

/// Returns the alignment of [`Alignment4K`].
///
/// Calls `core::mem::align_of`. elain documents that `Align<4096>` has an
/// alignment of 4096 and that a type holding it is aligned to at least
/// 4096; alignments are powers of two, so the marker's alignment is a
/// multiple of 4096. Its exact value is left unsaid.
#[verifier::external_body]
fn align_of_alignment4k() -> (align: usize)
    ensures
        align % 4096 == 0,
        align == align_of::<Alignment4K>(),
{
    core::mem::align_of::<Alignment4K>()
}

/// A zero-sized marker type with an alignment of (at least) 8192 bytes.
///
/// Its only field is an `elain::Align<8192>`, which carries the alignment; the
/// field is hidden from verification.
#[verifier::external_body]
#[derive(Copy, Debug, Default, Eq, Ord, PartialEq, PartialOrd)]
pub struct Alignment8k(Align<8192>);

impl Clone for Alignment8k {
    fn clone(&self) -> (copy: Self) {
        *self
    }
}

impl Alignment for Alignment8k {
    fn alignment() -> (align: usize)
        ensures
            align % 8192 == 0,
    {
        align_of_alignment8k()
    }
}

/// Returns the alignment of [`Alignment8k`].
///
/// Calls `core::mem::align_of`. elain documents that `Align<8192>` has an
/// alignment of 8192 and that a type holding it is aligned to at least
/// 8192; alignments are powers of two, so the marker's alignment is a
/// multiple of 8192. Its exact value is left unsaid.
#[verifier::external_body]
fn align_of_alignment8k() -> (align: usize)
    ensures
        align % 8192 == 0,
        align == align_of::<Alignment8k>(),
{
    core::mem::align_of::<Alignment8k>()
}

/// A zero-sized marker type with an alignment of (at least) 16384 bytes.
///
/// Its only field is an `elain::Align<16384>`, which carries the alignment; the
/// field is hidden from verification.
#[verifier::external_body]
#[derive(Copy, Debug, Default, Eq, Ord, PartialEq, PartialOrd)]
pub struct Alignment16k(Align<16384>);

impl Clone for Alignment16k {
    fn clone(&self) -> (copy: Self) {
        *self
    }
}

impl Alignment for Alignment16k {
    fn alignment() -> (align: usize)
        ensures
            align % 16384 == 0,
    {
        align_of_alignment16k()
    }
}

/// Returns the alignment of [`Alignment16k`].
///
/// Calls `core::mem::align_of`. elain documents that `Align<16384>` has an
/// alignment of 16384 and that a type holding it is aligned to at least
/// 16384; alignments are powers of two, so the marker's alignment is a
/// multiple of 16384. Its exact value is left unsaid.
#[verifier::external_body]
fn align_of_alignment16k() -> (align: usize)
    ensures
        align % 16384 == 0,
        align == align_of::<Alignment16k>(),
{
    core::mem::align_of::<Alignment16k>()
}

/// A zero-sized marker type with an alignment of (at least) 32768 bytes.
///
/// Its only field is an `elain::Align<32768>`, which carries the alignment; the
/// field is hidden from verification.
#[verifier::external_body]
#[derive(Copy, Debug, Default, Eq, Ord, PartialEq, PartialOrd)]
pub struct Alignment32k(Align<32768>);

impl Clone for Alignment32k {
    fn clone(&self) -> (copy: Self) {
        *self
    }
}

impl Alignment for Alignment32k {
    fn alignment() -> (align: usize)
        ensures
            align % 32768 == 0,
    {
        align_of_alignment32k()
    }
}

/// Returns the alignment of [`Alignment32k`].
///
/// Calls `core::mem::align_of`. elain documents that `Align<32768>` has an
/// alignment of 32768 and that a type holding it is aligned to at least
/// 32768; alignments are powers of two, so the marker's alignment is a
/// multiple of 32768. Its exact value is left unsaid.
#[verifier::external_body]
fn align_of_alignment32k() -> (align: usize)
    ensures
        align % 32768 == 0,
        align == align_of::<Alignment32k>(),
{
    core::mem::align_of::<Alignment32k>()
}

/// A zero-sized marker type with an alignment of (at least) 65536 bytes.
///
/// Its only field is an `elain::Align<65536>`, which carries the alignment; the
/// field is hidden from verification.
#[verifier::external_body]
#[derive(Copy, Debug, Default, Eq, Ord, PartialEq, PartialOrd)]
pub struct Alignment64K(Align<65536>);

impl Clone for Alignment64K {
    fn clone(&self) -> (copy: Self) {
        *self
    }
}

impl Alignment for Alignment64K {
    fn alignment() -> (align: usize)
        ensures
            align % 65536 == 0,
    {
        align_of_alignment64k()
    }
}

/// Returns the alignment of [`Alignment64K`].
///
/// Calls `core::mem::align_of`. elain documents that `Align<65536>` has an
/// alignment of 65536 and that a type holding it is aligned to at least
/// 65536; alignments are powers of two, so the marker's alignment is a
/// multiple of 65536. Its exact value is left unsaid.
#[verifier::external_body]
fn align_of_alignment64k() -> (align: usize)
    ensures
        align % 65536 == 0,
        align == align_of::<Alignment64K>(),
{
    core::mem::align_of::<Alignment64K>()
}

/// A zero-sized marker type with an alignment of (at least) 131072 bytes.
///
/// Its only field is an `elain::Align<131072>`, which carries the alignment; the
/// field is hidden from verification.
#[verifier::external_body]
#[derive(Copy, Debug, Default, Eq, Ord, PartialEq, PartialOrd)]
pub struct Alignment128K(Align<131072>);

impl Clone for Alignment128K {
    fn clone(&self) -> (copy: Self) {
        *self
    }
}

impl Alignment for Alignment128K {
    fn alignment() -> (align: usize)
        ensures
            align % 131072 == 0,
    {
        align_of_alignment128k()
    }
}

/// Returns the alignment of [`Alignment128K`].
///
/// Calls `core::mem::align_of`. elain documents that `Align<131072>` has an
/// alignment of 131072 and that a type holding it is aligned to at least
/// 131072; alignments are powers of two, so the marker's alignment is a
/// multiple of 131072. Its exact value is left unsaid.
#[verifier::external_body]
fn align_of_alignment128k() -> (align: usize)
    ensures
        align % 131072 == 0,
        align == align_of::<Alignment128K>(),
{
    core::mem::align_of::<Alignment128K>()
}

/// A zero-sized marker type with an alignment of (at least) 262144 bytes.
///
/// Its only field is an `elain::Align<262144>`, which carries the alignment; the
/// field is hidden from verification.
#[verifier::external_body]
#[derive(Copy, Debug, Default, Eq, Ord, PartialEq, PartialOrd)]
pub struct Alignment256K(Align<262144>);

impl Clone for Alignment256K {
    fn clone(&self) -> (copy: Self) {
        *self
    }
}

impl Alignment for Alignment256K {
    fn alignment() -> (align: usize)
        ensures
            align % 262144 == 0,
    {
        align_of_alignment256k()
    }
}

/// Returns the alignment of [`Alignment256K`].
///
/// Calls `core::mem::align_of`. elain documents that `Align<262144>` has an
/// alignment of 262144 and that a type holding it is aligned to at least
/// 262144; alignments are powers of two, so the marker's alignment is a
/// multiple of 262144. Its exact value is left unsaid.
#[verifier::external_body]
fn align_of_alignment256k() -> (align: usize)
    ensures
        align % 262144 == 0,
        align == align_of::<Alignment256K>(),
{
    core::mem::align_of::<Alignment256K>()
}

/// A zero-sized marker type with an alignment of (at least) 524288 bytes.
///
/// Its only field is an `elain::Align<524288>`, which carries the alignment; the
/// field is hidden from verification.
#[verifier::external_body]
#[derive(Copy, Debug, Default, Eq, Ord, PartialEq, PartialOrd)]
pub struct Alignment512K(Align<524288>);

impl Clone for Alignment512K {
    fn clone(&self) -> (copy: Self) {
        *self
    }
}

impl Alignment for Alignment512K {
    fn alignment() -> (align: usize)
        ensures
            align % 524288 == 0,
    {
        align_of_alignment512k()
    }
}

/// Returns the alignment of [`Alignment512K`].
///
/// Calls `core::mem::align_of`. elain documents that `Align<524288>` has an
/// alignment of 524288 and that a type holding it is aligned to at least
/// 524288; alignments are powers of two, so the marker's alignment is a
/// multiple of 524288. Its exact value is left unsaid.
#[verifier::external_body]
fn align_of_alignment512k() -> (align: usize)
    ensures
        align % 524288 == 0,
        align == align_of::<Alignment512K>(),
{
    core::mem::align_of::<Alignment512K>()
}

/// A zero-sized marker type with an alignment of (at least) 1048576 bytes.
///
/// Its only field is an `elain::Align<1048576>`, which carries the alignment; the
/// field is hidden from verification.
#[verifier::external_body]
#[derive(Copy, Debug, Default, Eq, Ord, PartialEq, PartialOrd)]
pub struct Alignment1M(Align<1048576>);

impl Clone for Alignment1M {
    fn clone(&self) -> (copy: Self) {
        *self
    }
}

impl Alignment for Alignment1M {
    fn alignment() -> (align: usize)
        ensures
            align % 1048576 == 0,
    {
        align_of_alignment1m()
    }
}

/// Returns the alignment of [`Alignment1M`].
///
/// Calls `core::mem::align_of`. elain documents that `Align<1048576>` has an
/// alignment of 1048576 and that a type holding it is aligned to at least
/// 1048576; alignments are powers of two, so the marker's alignment is a
/// multiple of 1048576. Its exact value is left unsaid.
#[verifier::external_body]
fn align_of_alignment1m() -> (align: usize)
    ensures
        align % 1048576 == 0,
        align == align_of::<Alignment1M>(),
{
    core::mem::align_of::<Alignment1M>()
}

/// A zero-sized marker type with an alignment of (at least) 2097152 bytes.
///
/// Its only field is an `elain::Align<2097152>`, which carries the alignment; the
/// field is hidden from verification.
#[verifier::external_body]
#[derive(Copy, Debug, Default, Eq, Ord, PartialEq, PartialOrd)]
pub struct Alignment2M(Align<2097152>);

impl Clone for Alignment2M {
    fn clone(&self) -> (copy: Self) {
        *self
    }
}

impl Alignment for Alignment2M {
    fn alignment() -> (align: usize)
        ensures
            align % 2097152 == 0,
    {
        align_of_alignment2m()
    }
}

/// Returns the alignment of [`Alignment2M`].
///
/// Calls `core::mem::align_of`. elain documents that `Align<2097152>` has an
/// alignment of 2097152 and that a type holding it is aligned to at least
/// 2097152; alignments are powers of two, so the marker's alignment is a
/// multiple of 2097152. Its exact value is left unsaid.
#[verifier::external_body]
fn align_of_alignment2m() -> (align: usize)
    ensures
        align % 2097152 == 0,
        align == align_of::<Alignment2M>(),
{
    core::mem::align_of::<Alignment2M>()
}

/// A zero-sized marker type with an alignment of (at least) 4194304 bytes.
///
/// Its only field is an `elain::Align<4194304>`, which carries the alignment; the
/// field is hidden from verification.
#[verifier::external_body]
#[derive(Copy, Debug, Default, Eq, Ord, PartialEq, PartialOrd)]
pub struct Alignment4M(Align<4194304>);

impl Clone for Alignment4M {
    fn clone(&self) -> (copy: Self) {
        *self
    }
}

impl Alignment for Alignment4M {
    fn alignment() -> (align: usize)
        ensures
            align % 4194304 == 0,
    {
        align_of_alignment4m()
    }
}

/// Returns the alignment of [`Alignment4M`].
///
/// Calls `core::mem::align_of`. elain documents that `Align<4194304>` has an
/// alignment of 4194304 and that a type holding it is aligned to at least
/// 4194304; alignments are powers of two, so the marker's alignment is a
/// multiple of 4194304. Its exact value is left unsaid.
#[verifier::external_body]
fn align_of_alignment4m() -> (align: usize)
    ensures
        align % 4194304 == 0,
        align == align_of::<Alignment4M>(),
{
    core::mem::align_of::<Alignment4M>()
}

/// A zero-sized marker type with an alignment of (at least) 8388608 bytes.
///
/// Its only field is an `elain::Align<8388608>`, which carries the alignment; the
/// field is hidden from verification.
#[verifier::external_body]
#[derive(Copy, Debug, Default, Eq, Ord, PartialEq, PartialOrd)]
pub struct Alignment8M(Align<8388608>);

impl Clone for Alignment8M {
    fn clone(&self) -> (copy: Self) {
        *self
    }
}

impl Alignment for Alignment8M {
    fn alignment() -> (align: usize)
        ensures
            align % 8388608 == 0,
    {
        align_of_alignment8m()
    }
}

/// Returns the alignment of [`Alignment8M`].
///
/// Calls `core::mem::align_of`. elain documents that `Align<8388608>` has an
/// alignment of 8388608 and that a type holding it is aligned to at least
/// 8388608; alignments are powers of two, so the marker's alignment is a
/// multiple of 8388608. Its exact value is left unsaid.
#[verifier::external_body]
fn align_of_alignment8m() -> (align: usize)
    ensures
        align % 8388608 == 0,
        align == align_of::<Alignment8M>(),
{
    core::mem::align_of::<Alignment8M>()
}

/// A zero-sized marker type with an alignment of (at least) 16777216 bytes.
///
/// Its only field is an `elain::Align<16777216>`, which carries the alignment; the
/// field is hidden from verification.
#[verifier::external_body]
#[derive(Copy, Debug, Default, Eq, Ord, PartialEq, PartialOrd)]
pub struct Alignment16M(Align<16777216>);

impl Clone for Alignment16M {
    fn clone(&self) -> (copy: Self) {
        *self
    }
}

impl Alignment for Alignment16M {
    fn alignment() -> (align: usize)
        ensures
            align % 16777216 == 0,
    {
        align_of_alignment16m()
    }
}

/// Returns the alignment of [`Alignment16M`].
///
/// Calls `core::mem::align_of`. elain documents that `Align<16777216>` has an
/// alignment of 16777216 and that a type holding it is aligned to at least
/// 16777216; alignments are powers of two, so the marker's alignment is a
/// multiple of 16777216. Its exact value is left unsaid.
#[verifier::external_body]
fn align_of_alignment16m() -> (align: usize)
    ensures
        align % 16777216 == 0,
        align == align_of::<Alignment16M>(),
{
    core::mem::align_of::<Alignment16M>()
}

/// A zero-sized marker type with an alignment of (at least) 33554432 bytes.
///
/// Its only field is an `elain::Align<33554432>`, which carries the alignment; the
/// field is hidden from verification.
#[verifier::external_body]
#[derive(Copy, Debug, Default, Eq, Ord, PartialEq, PartialOrd)]
pub struct Alignment32M(Align<33554432>);

impl Clone for Alignment32M {
    fn clone(&self) -> (copy: Self) {
        *self
    }
}

impl Alignment for Alignment32M {
    fn alignment() -> (align: usize)
        ensures
            align % 33554432 == 0,
    {
        align_of_alignment32m()
    }
}

/// Returns the alignment of [`Alignment32M`].
///
/// Calls `core::mem::align_of`. elain documents that `Align<33554432>` has an
/// alignment of 33554432 and that a type holding it is aligned to at least
/// 33554432; alignments are powers of two, so the marker's alignment is a
/// multiple of 33554432. Its exact value is left unsaid.
#[verifier::external_body]
fn align_of_alignment32m() -> (align: usize)
    ensures
        align % 33554432 == 0,
        align == align_of::<Alignment32M>(),
{
    core::mem::align_of::<Alignment32M>()
}

/// A zero-sized marker type with an alignment of (at least) 67108864 bytes.
///
/// Its only field is an `elain::Align<67108864>`, which carries the alignment; the
/// field is hidden from verification.
#[verifier::external_body]
#[derive(Copy, Debug, Default, Eq, Ord, PartialEq, PartialOrd)]
pub struct Alignment64M(Align<67108864>);

impl Clone for Alignment64M {
    fn clone(&self) -> (copy: Self) {
        *self
    }
}

impl Alignment for Alignment64M {
    fn alignment() -> (align: usize)
        ensures
            align % 67108864 == 0,
    {
        align_of_alignment64m()
    }
}

/// Returns the alignment of [`Alignment64M`].
///
/// Calls `core::mem::align_of`. elain documents that `Align<67108864>` has an
/// alignment of 67108864 and that a type holding it is aligned to at least
/// 67108864; alignments are powers of two, so the marker's alignment is a
/// multiple of 67108864. Its exact value is left unsaid.
#[verifier::external_body]
fn align_of_alignment64m() -> (align: usize)
    ensures
        align % 67108864 == 0,
        align == align_of::<Alignment64M>(),
{
    core::mem::align_of::<Alignment64M>()
}

/// A zero-sized marker type with an alignment of (at least) 134217728 bytes.
///
/// Its only field is an `elain::Align<134217728>`, which carries the alignment; the
/// field is hidden from verification.
#[verifier::external_body]
#[derive(Copy, Debug, Default, Eq, Ord, PartialEq, PartialOrd)]
pub struct Alignment128M(Align<134217728>);

impl Clone for Alignment128M {
    fn clone(&self) -> (copy: Self) {
        *self
    }
}

impl Alignment for Alignment128M {
    fn alignment() -> (align: usize)
        ensures
            align % 134217728 == 0,
    {
        align_of_alignment128m()
    }
}

/// Returns the alignment of [`Alignment128M`].
///
/// Calls `core::mem::align_of`. elain documents that `Align<134217728>` has an
/// alignment of 134217728 and that a type holding it is aligned to at least
/// 134217728; alignments are powers of two, so the marker's alignment is a
/// multiple of 134217728. Its exact value is left unsaid.
#[verifier::external_body]
fn align_of_alignment128m() -> (align: usize)
    ensures
        align % 134217728 == 0,
        align == align_of::<Alignment128M>(),
{
    core::mem::align_of::<Alignment128M>()
}

/// A zero-sized marker type with an alignment of (at least) 268435456 bytes.
///
/// Its only field is an `elain::Align<268435456>`, which carries the alignment; the
/// field is hidden from verification.
#[verifier::external_body]
#[derive(Copy, Debug, Default, Eq, Ord, PartialEq, PartialOrd)]
pub struct Alignment256M(Align<268435456>);

impl Clone for Alignment256M {
    fn clone(&self) -> (copy: Self) {
        *self
    }
}

impl Alignment for Alignment256M {
    fn alignment() -> (align: usize)
        ensures
            align % 268435456 == 0,
    {
        align_of_alignment256m()
    }
}

/// Returns the alignment of [`Alignment256M`].
///
/// Calls `core::mem::align_of`. elain documents that `Align<268435456>` has an
/// alignment of 268435456 and that a type holding it is aligned to at least
/// 268435456; alignments are powers of two, so the marker's alignment is a
/// multiple of 268435456. Its exact value is left unsaid.
#[verifier::external_body]
fn align_of_alignment256m() -> (align: usize)
    ensures
        align % 268435456 == 0,
        align == align_of::<Alignment256M>(),
{
    core::mem::align_of::<Alignment256M>()
}

/// A zero-sized marker type with an alignment of (at least) 536870912 bytes.
///
/// Its only field is an `elain::Align<536870912>`, which carries the alignment; the
/// field is hidden from verification.
#[verifier::external_body]
#[derive(Copy, Debug, Default, Eq, Ord, PartialEq, PartialOrd)]
pub struct Alignment512M(Align<536870912>);

impl Clone for Alignment512M {
    fn clone(&self) -> (copy: Self) {
        *self
    }
}

impl Alignment for Alignment512M {
    fn alignment() -> (align: usize)
        ensures
            align % 536870912 == 0,
    {
        align_of_alignment512m()
    }
}

/// Returns the alignment of [`Alignment512M`].
///
/// Calls `core::mem::align_of`. elain documents that `Align<536870912>` has an
/// alignment of 536870912 and that a type holding it is aligned to at least
/// 536870912; alignments are powers of two, so the marker's alignment is a
/// multiple of 536870912. Its exact value is left unsaid.
#[verifier::external_body]
fn align_of_alignment512m() -> (align: usize)
    ensures
        align % 536870912 == 0,
        align == align_of::<Alignment512M>(),
{
    core::mem::align_of::<Alignment512M>()
}


/// A value of type `T` stored with (at least) the alignment of `A`.
#[derive(Copy, Clone, Debug, Default, Eq, Ord, PartialEq, PartialOrd)]
pub struct Aligned<T, A: Alignment> {
    inner: T,
    align: A,
}

impl<T, A: Alignment> Aligned<T, A> {
    /// The wrapped value.
    pub closed spec fn inner_spec(self) -> T {
        self.inner
    }

    /// Wraps `inner`, raising its alignment to that of `A`.
    pub fn new(inner: T) -> (aligned: Self)
        ensures
            aligned.inner_spec() == inner,
    {
        Self { inner, align: A::default() }
    }

    /// Returns the alignment of `Aligned<T, A>`.
    ///
    /// Calls `core::mem::align_of`. A struct is at least as aligned as each of
    /// its fields (the Rust reference, "Type layout"), and alignments are powers
    /// of two, so the result is a multiple of the alignments of `T` and `A`. Its
    /// exact value is left unsaid: the default representation promises no more.
    #[verifier::external_body]
    fn align_of_self() -> (align: usize)
        ensures
            align == align_of::<Self>(),
            align as nat % align_of::<A>() == 0,
            align as nat % align_of::<T>() == 0,
    {
        core::mem::align_of::<Self>()
    }

    /// Returns the alignment of `Aligned<T, A>` in bytes: a multiple of the
    /// alignments of both `T` and `A`.
    pub fn alignment() -> (align: usize)
        ensures
            align == align_of::<Self>(),
            align as nat % align_of::<A>() == 0,
            align as nat % align_of::<T>() == 0,
    {
        Self::align_of_self()
    }

    /// Returns the number of mark bits that pointers to an `Aligned<T, A>`
    /// have at least: the base-2 logarithm of the alignment of `A`.
    pub fn mark_bits() -> (bits: usize)
        ensures
            pow2(bits as nat) == align_of::<A>(),
            mark_bits_fit::<Self>(bits as nat),
    {
        let bits = lower_bits::<A>();
        let _align = Self::alignment();
        layout_for_type_is_valid::<Self>();
        proof {
            lemma_mark_bits_fit_divides::<Self>(bits as nat);
        }
        bits
    }

    /// Returns the wrapped value.
    pub fn into_inner(self) -> (inner: T)
        ensures
            inner == self.inner_spec(),
    {
        self.inner
    }
}

impl<T, A: Alignment> core::ops::Deref for Aligned<T, A> {
    type Target = T;

    fn deref(&self) -> (inner: &T)
        ensures
            *inner == self.inner_spec(),
    {
        &self.inner
    }
}

impl<T, A: Alignment> core::ops::DerefMut for Aligned<T, A> {
    fn deref_mut(&mut self) -> (inner: &mut T)
        ensures
            *inner == old(self).inner_spec(),
            final(self).inner_spec() == *final(inner),
    {
        &mut self.inner
    }
}


/// A value of type `T` aligned to 1 byte.
pub type Aligned1<T> = Aligned<T, Alignment1>;

/// A value of type `T` aligned to 2 bytes.
pub type Aligned2<T> = Aligned<T, Alignment2>;

/// A value of type `T` aligned to 4 bytes.
pub type Aligned4<T> = Aligned<T, Alignment4>;

/// A value of type `T` aligned to 8 bytes.
pub type Aligned8<T> = Aligned<T, Alignment8>;

/// A value of type `T` aligned to 16 bytes.
pub type Aligned16<T> = Aligned<T, Alignment16>;

/// A value of type `T` aligned to 32 bytes.
pub type Aligned32<T> = Aligned<T, Alignment32>;

/// A value of type `T` aligned to 64 bytes.
pub type Aligned64<T> = Aligned<T, Alignment64>;

/// A value of type `T` aligned to 128 bytes.
pub type Aligned128<T> = Aligned<T, Alignment128>;

/// A value of type `T` aligned to 256 bytes.
pub type Aligned256<T> = Aligned<T, Alignment256>;

/// A value of type `T` aligned to 512 bytes.
pub type Aligned512<T> = Aligned<T, Alignment512>;

/// A value of type `T` aligned to 1024 bytes.
pub type Aligned1024<T> = Aligned<T, Alignment1K>;

/// A value of type `T` aligned to 2048 bytes.
pub type Aligned2048<T> = Aligned<T, Alignment2K>;

/// A value of type `T` aligned to 4096 bytes.
pub type Aligned4096<T> = Aligned<T, Alignment4K>;

/// A value of type `T` aligned to a cache line.
pub type CachePadded<T> = Aligned64<T>;

} // verus!
