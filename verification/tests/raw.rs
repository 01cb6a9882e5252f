use reclaim::align::Aligned8;
use reclaim::MarkedPtr;

type UnmarkedMarkedPtr = MarkedPtr<Aligned8<i32>, 0>;
type MarkedPtr1N = MarkedPtr<Aligned8<i32>, 1>;
type MarkedPtr3N = MarkedPtr<Aligned8<i32>, 3>;

fn address_of<T>(value: &T) -> usize {
    MarkedPtr::<T, 0>::from_ref(value).into_usize()
}

#[test]
fn raw_from() {
    let mut x = Aligned8::new(1);

    let from_ref = MarkedPtr1N::from_ref(&x);
    let from_mut = MarkedPtr1N::from_mut(&mut x);
    let from_const_ptr = MarkedPtr1N::new(address_of(&x));
    let from_mut_ptr = MarkedPtr1N::from_usize(address_of(&x));

    assert!(from_ref == from_mut && from_const_ptr == from_mut_ptr);
}

#[test]
fn default() {
    let default: MarkedPtr<Aligned8<i32>, 3> = MarkedPtr::default();
    assert!(default.is_null());
    assert_eq!(default.into_usize(), 0);
}

#[test]
fn raw_from_usize() {
    let value = 1usize;
    let unmarked = MarkedPtr::<usize, 0>::from_usize(address_of(&value));
    assert_eq!(unmarked.decompose(), (address_of(&value), 0));

    let aligned = Aligned8::new(1i32);
    let tagged = address_of(&aligned) | 0b1;
    assert_eq!((address_of(&aligned), 0b1), MarkedPtr1N::from_usize(tagged).decompose());
}

#[test]
fn raw_eq_ord() {
    let null = MarkedPtr3N::null();
    assert!(null.is_null());
    assert_eq!(null, null);

    let aligned = Aligned8::new(1);
    let marked1 = MarkedPtr3N::compose(address_of(&aligned), 0b01);
    let marked2 = MarkedPtr3N::compose(address_of(&aligned), 0b11);

    assert_ne!(marked1, marked2);
    assert!(marked1 < marked2);
}

#[test]
fn raw_convert() {
    let aligned = Aligned8::new(1);

    let marked = MarkedPtr1N::compose(address_of(&aligned), 0b1);
    let convert = MarkedPtr3N::convert(marked);

    assert_eq!((address_of(&aligned), 0b1), convert.decompose());
}

#[test]
fn pointer_from() {
    let r = &1;
    let from_ref = MarkedPtr::<i32, 0>::from_ref(r);
    let from_const = MarkedPtr::<i32, 0>::new(address_of(r));
    let from_mut = MarkedPtr::<i32, 0>::from_usize(address_of(r));
    assert_eq!(from_ref, from_const);
    assert_eq!(from_const, from_mut);
    assert_eq!(from_mut, from_ref);
}

#[test]
fn pointer_eq_ord() {
    let null: MarkedPtr<i32, 0> = MarkedPtr::null();
    assert!(null.is_null());
    assert_eq!(null, null);

    let reference: &i32 = &1;
    let marked1 = MarkedPtr::<i32, 2>::compose(address_of(reference), 1);
    let marked2 = MarkedPtr::<i32, 2>::compose(address_of(reference), 2);
    assert_ne!(marked1, marked2);
    assert!(marked1 < marked2);
}

#[test]
fn raw_compose_truncates_tag() {
    let aligned = Aligned8::new(7);
    let ptr = address_of(&aligned);

    let marked = MarkedPtr3N::compose(ptr, 0b1_1010);
    assert_eq!(marked.decompose_ptr(), ptr);
    assert_eq!(marked.decompose_tag(), 0b010);
    assert_eq!(marked.into_usize(), ptr + 0b010);

    let unmarked = UnmarkedMarkedPtr::compose(ptr, 0b111);
    assert_eq!(unmarked.decompose(), (ptr, 0));
}

#[test]
fn raw_with_and_clear_tag() {
    let aligned = Aligned8::new(7);
    let ptr = address_of(&aligned);

    let marked = MarkedPtr3N::compose(ptr, 0b101);
    let retagged = marked.with_tag(0b010);
    assert_eq!(retagged.decompose(), (ptr, 0b010));
    let cleared = retagged.clear_tag();
    assert_eq!(cleared.decompose(), (ptr, 0));
    assert_eq!(cleared.into_ptr(), ptr);
    assert!(!cleared.is_null());
}

#[test]
fn raw_marked_null_is_null() {
    let marked_null = MarkedPtr3N::compose(0, 0b111);
    assert!(marked_null.is_null());
    assert_eq!(marked_null.decompose(), (0, 0b111));
    assert_eq!(marked_null.into_usize(), 0b111);
}

#[test]
fn raw_retag_keeps_only_second_tag() {
    let aligned = Aligned8::new(7);
    let ptr = address_of(&aligned);

    let marked = MarkedPtr3N::compose(ptr, 0b001);
    let twice = marked.with_tag(0b100).with_tag(0b011);
    assert_eq!(twice, marked.with_tag(0b011));
    assert_eq!(twice.decompose(), (ptr, 0b011));
    assert_eq!(MarkedPtr3N::compose(twice.decompose_ptr(), twice.decompose_tag()), twice);
}

#[test]
fn from_ref_gives_the_aligned_address() {
    let value = reclaim::align::Aligned64::new(0u8);
    let address = MarkedPtr::<reclaim::align::Aligned64<u8>, 6>::from_ref(&value).into_usize();
    assert_ne!(address, 0);
    assert_eq!(address % 64, 0);
}
