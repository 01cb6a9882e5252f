use reclaim::align::Aligned8;
use reclaim::util::UnwrapUnchecked;
use reclaim::{Marked, MarkedNonNull};

type Ptr = MarkedNonNull<Aligned8<u64>, 3>;

#[test]
fn marked_variants() {
    let one = 1;
    let value: Marked<&i32> = Marked::Value(&one);
    let null: Marked<&i32> = Marked::Null(0b10);

    assert!(value.is_value());
    assert!(!value.is_null());
    assert!(null.is_null());
    assert!(!null.is_value());
    assert_eq!(value.unwrap_value(), &1);
    assert_eq!(null.unwrap_null(), 0b10);
    assert_eq!(value.value(), Some(&1));
    assert_eq!(null.value(), None);
    assert_eq!(Marked::<&i32>::default(), Marked::Null(0));
}

#[test]
fn marked_as_ref_as_mut() {
    let one = 1;
    let mut value: Marked<&i32> = Marked::Value(&one);
    assert_eq!(value.as_ref(), Marked::Value(&&1));

    let two = 2;
    if let Marked::Value(inner) = value.as_mut() {
        *inner = &two;
    }
    assert_eq!(value, Marked::Value(&2));

    let mut null: Marked<&i32> = Marked::Null(3);
    assert_eq!(null.as_ref(), Marked::Null(3));
    assert_eq!(null.as_mut(), Marked::Null(3));
}

#[test]
fn marked_map_and_else() {
    let one = 1;
    let two = 2;
    let value: Marked<&i32> = Marked::Value(&one);
    let null: Marked<&i32> = Marked::Null(5);

    assert_eq!(value.unwrap_value_or_else(|_| &two), &1);
    assert_eq!(null.unwrap_value_or_else(|_| &two), &2);
    assert_eq!(value.map(|_| &two), Marked::Value(&2));
    assert_eq!(null.map(|_| &two), Marked::Null(5));
    assert_eq!(value.map_or_else(|_| &two, |v| v), &1);
    assert_eq!(null.map_or_else(|_| &two, |v| v), &2);
}

#[test]
fn marked_take_replace() {
    let one = 1;
    let two = 2;
    let mut marked: Marked<&i32> = Marked::Value(&one);

    assert_eq!(marked.take(), Marked::Value(&1));
    assert_eq!(marked, Marked::Null(0));
    assert_eq!(marked.replace(&two), Marked::Null(0));
    assert_eq!(marked, Marked::Value(&2));
    assert_eq!(marked.replace(&one), Marked::Value(&2));
}

#[test]
fn marked_decompose_tag() {
    let null: Marked<reclaim::leak::Shared<'static, Aligned8<u64>, 3>> = Marked::Null(0b1111);
    assert_eq!(null.decompose_tag(), 0b1111);
}

#[test]
fn unwrap_unchecked_variants() {
    let value = Aligned8::new(9u64);
    let ptr = Ptr::from_ref(&value);

    assert_eq!(UnwrapUnchecked::unwrap_unchecked(Some(4)), 4);
    assert_eq!(UnwrapUnchecked::unwrap_unchecked(Ok::<i32, ()>(5)), 5);
    assert_eq!(UnwrapUnchecked::unwrap_unchecked(Marked::Value(ptr)), ptr);
}
