use reclaim::align::{Aligned, Aligned8, Alignment4};
use reclaim::{InvalidNullError, Marked, MarkedNonNull, MarkedPtr};

type Aligned4<T> = Aligned<T, Alignment4>;
type MarkedPtr2<T> = MarkedPtr<T, 2>;
type MarkedNonNull2<T> = MarkedNonNull<T, 2>;

fn address_of<T>(value: &T) -> usize {
    MarkedPtr::<T, 0>::from_ref(value).into_usize()
}

#[test]
fn non_null_new() {
    let reference = &mut Aligned4::new(1);
    let address = address_of(&*reference);
    let unmarked = MarkedPtr2::from_mut(reference);

    let marked = MarkedNonNull2::new(unmarked);
    assert_eq!(marked.unwrap_value().decompose(), (address, 0));

    let marked = MarkedNonNull2::new(MarkedPtr2::<Aligned4<i32>>::compose(address, 0b11));
    assert_eq!(marked.unwrap_value().decompose(), (address, 0b11));

    let marked = MarkedNonNull2::new(MarkedPtr2::<Aligned4<i32>>::compose(0, 0b11));
    assert_eq!(marked.unwrap_null(), 0b11);

    let marked = MarkedNonNull2::new(MarkedPtr2::<Aligned4<i32>>::compose(0, 0));
    assert!(marked.is_null());
}

#[test]
fn non_null_try_from() {
    let value = Aligned8::new(3u64);
    let address = address_of(&value);

    let ok = MarkedNonNull::<Aligned8<u64>, 3>::try_from(MarkedPtr::compose(address, 0b101));
    assert_eq!(ok.unwrap().decompose(), (address, 0b101));

    let err = MarkedNonNull::<Aligned8<u64>, 3>::try_from(MarkedPtr::compose(0, 0b101));
    assert_eq!(err, Err(InvalidNullError));
}

#[test]
fn non_null_compose_and_tags() {
    let value = Aligned8::new(3u64);
    let address = address_of(&value);

    let marked = MarkedNonNull::<Aligned8<u64>, 3>::compose(address, 0b1110);
    assert_eq!(marked.decompose(), (address, 0b110));
    assert_eq!(marked.decompose_ptr(), address);
    assert_eq!(marked.decompose_non_null(), address);
    assert_eq!(marked.decompose_tag(), 0b110);
    assert_eq!(marked.into_marked_ptr().into_usize(), address + 0b110);

    let retagged = marked.with_tag(1);
    assert_eq!(retagged.decompose(), (address, 1));
    let cleared = retagged.clear_tag();
    assert_eq!(cleared.decompose(), (address, 0));
    assert_eq!(cleared, MarkedNonNull::from_ref(&value));
    assert!(marked > cleared);
}

#[test]
fn non_null_dangling_is_aligned() {
    let dangling = MarkedNonNull::<Aligned8<u64>, 3>::dangling();
    assert_eq!(dangling.decompose(), (8, 0));
    let dangling = MarkedNonNull::<u32, 0>::dangling();
    assert_eq!(dangling.into_marked_ptr().into_usize(), 4);
}

#[test]
fn non_null_convert_and_cast() {
    let mut value = Aligned8::new(3u64);
    let address = address_of(&value);

    let marked = MarkedNonNull::<Aligned8<u64>, 1>::compose(address, 1);
    let converted = MarkedNonNull::<Aligned8<u64>, 3>::convert(marked);
    assert_eq!(converted.decompose(), (address, 1));

    let from_mut = MarkedNonNull::<Aligned8<u64>, 3>::from_mut(&mut value);
    let cast: MarkedNonNull<Aligned8<i64>, 3> = from_mut.cast();
    assert_eq!(cast.decompose(), (address, 0));
}

#[test]
fn marked_from_option() {
    let value = Aligned8::new(3u64);
    let ptr = MarkedNonNull::<Aligned8<u64>, 3>::from_ref(&value);
    assert_eq!(Marked::from(Some(ptr)), Marked::Value(ptr));
    assert_eq!(Marked::<MarkedNonNull<Aligned8<u64>, 3>>::from(None), Marked::Null(0));
}
