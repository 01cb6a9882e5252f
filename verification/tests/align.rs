use std::mem;

use reclaim::align::{
    Aligned, Aligned1024, Aligned128, Aligned16, Aligned2048, Aligned256, Aligned32, Aligned4096,
    Aligned512, Aligned64, Aligned8, Alignment, Alignment1, Alignment16, Alignment1K,
    Alignment2, Alignment4, Alignment512M, Alignment8,
};

#[test]
fn alignments() {
    assert_eq!(mem::align_of::<Aligned8<u8>>(), 8);
    assert_eq!(mem::align_of::<Aligned16<u8>>(), 16);
    assert_eq!(mem::align_of::<Aligned32<u8>>(), 32);
    assert_eq!(mem::align_of::<Aligned64<u8>>(), 64);
    assert_eq!(mem::align_of::<Aligned128<u8>>(), 128);
    assert_eq!(mem::align_of::<Aligned256<u8>>(), 256);
    assert_eq!(mem::align_of::<Aligned512<u8>>(), 512);
    assert_eq!(mem::align_of::<Aligned1024<u8>>(), 1024);
    assert_eq!(mem::align_of::<Aligned2048<u8>>(), 2048);
    assert_eq!(mem::align_of::<Aligned4096<u8>>(), 4096);
}

#[test]
fn small_alignments() {
    assert_eq!(mem::align_of::<Aligned<u8, Alignment1>>(), 1);
    assert_eq!(mem::align_of::<Aligned<u8, Alignment2>>(), 2);
    assert_eq!(mem::align_of::<Aligned<u8, Alignment4>>(), 4);
}

#[test]
fn aligned_new_into_inner() {
    let aligned: Aligned64<i32> = Aligned64::new(-5);
    assert_eq!(*aligned, -5);
    assert_eq!(aligned.into_inner(), -5);
}

#[test]
fn marker_alignments() {
    assert_eq!(Alignment1::alignment(), 1);
    assert_eq!(Alignment8::alignment(), 8);
    assert_eq!(Alignment16::alignment(), 16);
    assert_eq!(Alignment1K::alignment(), 1024);
    assert_eq!(Alignment512M::alignment(), 536870912);
    assert_eq!(Alignment8::alignment(), mem::align_of::<Alignment8>());
}

#[test]
fn aligned_alignment_and_mark_bits() {
    assert_eq!(Aligned8::<u8>::alignment(), 8);
    assert_eq!(Aligned4096::<u8>::alignment(), 4096);
    assert_eq!(Aligned::<u64, Alignment1>::alignment() % mem::align_of::<u64>(), 0);
    assert_eq!(Aligned8::<u8>::mark_bits(), 3);
    assert_eq!(Aligned64::<u8>::mark_bits(), 6);
    assert_eq!(Aligned::<u8, Alignment1>::mark_bits(), 0);
    assert_eq!(Aligned::<u8, Alignment4>::mark_bits(), 2);
}
