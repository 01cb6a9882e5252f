use reclaim::align::{
    Aligned, Aligned1024, Aligned16, Aligned32, Aligned4096, Aligned64, Aligned8, Alignment1,
    Alignment2, Alignment4,
};
use reclaim::bits::{compose, decompose, decompose_ptr, decompose_tag, lower_bits, mark_mask};
use reclaim::MarkedPtr;

type Align1 = Aligned<u8, Alignment1>;
type Align2 = Aligned<u8, Alignment2>;
type Align4 = Aligned<u8, Alignment4>;
type Align8 = Aligned8<u8>;
type Align16 = Aligned16<u8>;
type Align32 = Aligned32<u8>;
type Align64 = Aligned64<u8>;
type Align1024 = Aligned1024<u8>;
type Align4096 = Aligned4096<u8>;

fn address_of<T>(value: &T) -> usize {
    MarkedPtr::<T, 0>::from_ref(value).into_usize()
}

#[test]
fn marked_lower_bits() {
    assert_eq!(0, lower_bits::<Align1>());
    assert_eq!(1, lower_bits::<Align2>());
    assert_eq!(2, lower_bits::<Align4>());
    assert_eq!(3, lower_bits::<Align8>());
    assert_eq!(4, lower_bits::<Align16>());
    assert_eq!(5, lower_bits::<Align32>());
    assert_eq!(6, lower_bits::<Align64>());
    assert_eq!(10, lower_bits::<Align1024>());
    assert_eq!(12, lower_bits::<Align4096>());
}

#[test]
fn mod_lower_bits() {
    assert_eq!(0, lower_bits::<Aligned<u8, Alignment1>>());
    assert_eq!(1, lower_bits::<Aligned<u8, Alignment2>>());
    assert_eq!(2, lower_bits::<Aligned<u8, Alignment4>>());
    assert_eq!(3, lower_bits::<Aligned8<u8>>());
    assert_eq!(4, lower_bits::<Aligned16<u8>>());
    assert_eq!(5, lower_bits::<Aligned32<u8>>());
    assert_eq!(6, lower_bits::<Aligned64<u8>>());
    assert_eq!(10, lower_bits::<Aligned1024<u8>>());
    assert_eq!(12, lower_bits::<Aligned4096<u8>>());
}

#[test]
fn marked_mark_mask() {
    assert_eq!(0b000, mark_mask::<Align8>(0));
    assert_eq!(0b001, mark_mask::<Align8>(1));
    assert_eq!(0b011, mark_mask::<Align8>(2));
    assert_eq!(0b111, mark_mask::<Align8>(3));
}

#[test]
fn mod_mark_mask() {
    assert_eq!(0b000, mark_mask::<Aligned8<u8>>(0));
    assert_eq!(0b001, mark_mask::<Aligned8<u8>>(1));
    assert_eq!(0b011, mark_mask::<Aligned8<u8>>(2));
    assert_eq!(0b111, mark_mask::<Aligned8<u8>>(3));
}

#[test]
fn marked_compose() {
    let value = Align4::new(0);
    let ptr = address_of(&value);

    assert_eq!(compose::<Align4, 2>(0, 0), 0);
    assert_eq!(compose::<Align4, 2>(ptr, 0), ptr);
    assert_eq!(compose::<Align4, 2>(ptr, 0b11), ptr | 0b11);
    assert_eq!(compose::<Align4, 2>(ptr, 0b1111), ptr | 0b11);
    assert_eq!(compose::<Align64, 6>(0, 0b110101), 0b110101);
}

#[test]
fn mod_compose() {
    let reference = &mut Aligned4::new(0u8);
    let ptr = address_of(&*reference);

    assert_eq!(compose::<Aligned8<u8>, 2>(0, 0), 0);
    assert_eq!(compose::<Aligned4<u8>, 2>(ptr, 0), ptr);
    assert_eq!(compose::<Aligned4<u8>, 2>(ptr, 0b11), ptr | 0b11);
    assert_eq!(compose::<Aligned4<u8>, 2>(ptr, 0b1111), ptr | 0b11);
    assert_eq!(compose::<Aligned64<u8>, 6>(0, 0b110101), 0b110101);
}

type Aligned4<T> = Aligned<T, Alignment4>;

#[test]
fn marked_decompose() {
    let aligned = Align8::new(0);
    let ptr = address_of(&aligned);

    let composed = compose::<Align8, 3>(ptr, 0b0);
    assert_eq!(decompose::<Align8>(composed, 3), (ptr, 0b0));
    let composed = compose::<Align8, 3>(ptr, 0b1);
    assert_eq!(decompose::<Align8>(composed, 3), (ptr, 0b1));
    let composed = compose::<Align8, 3>(ptr, 0b10);
    assert_eq!(decompose::<Align8>(composed, 3), (ptr, 0b10));
    let composed = compose::<Align8, 3>(ptr, 0b100);
    assert_eq!(decompose::<Align8>(composed, 3), (ptr, 0b100));
    let composed = compose::<Align8, 3>(ptr, 0b1000);
    assert_eq!(decompose::<Align8>(composed, 3), (ptr, 0b0));
}

#[test]
fn mod_decompose() {
    let aligned = Aligned8::new(0u8);
    let ptr = address_of(&aligned);

    let composed = compose::<Aligned8<u8>, 3>(ptr, 0b0);
    assert_eq!(decompose::<Aligned8<u8>>(composed, 3), (ptr, 0b0));
    let composed = compose::<Aligned8<u8>, 3>(ptr, 0b1);
    assert_eq!(decompose::<Aligned8<u8>>(composed, 3), (ptr, 0b1));
    let composed = compose::<Aligned8<u8>, 3>(ptr, 0b10);
    assert_eq!(decompose::<Aligned8<u8>>(composed, 3), (ptr, 0b10));
    let composed = compose::<Aligned8<u8>, 3>(ptr, 0b100);
    assert_eq!(decompose::<Aligned8<u8>>(composed, 3), (ptr, 0b100));
    let composed = compose::<Aligned8<u8>, 3>(ptr, 0b1000);
    assert_eq!(decompose::<Aligned8<u8>>(composed, 3), (ptr, 0b0));
}

#[test]
fn marked_null() {
    let marked = compose::<Aligned4<u8>, 1>(0, 1);
    assert_eq!(decompose::<Aligned4<u8>>(marked, 1), (0, 1));
}

#[test]
fn decompose_parts_of_value() {
    let marked = 0b1011_0110usize;
    assert_eq!(decompose_ptr::<Aligned8<u8>>(marked, 3), 0b1011_0000);
    assert_eq!(decompose_tag::<Aligned8<u8>>(marked, 3), 0b110);
    assert_eq!(decompose_ptr::<Aligned8<u8>>(marked, 0), marked);
    assert_eq!(decompose_tag::<Aligned8<u8>>(marked, 0), 0);
}

#[test]
fn lower_bits_of_primitives() {
    assert_eq!(lower_bits::<u8>(), 0);
    assert_eq!(lower_bits::<u16>(), 1);
    assert_eq!(lower_bits::<u32>(), 2);
    assert_eq!(lower_bits::<u64>(), 3);
}
