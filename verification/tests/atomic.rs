use std::sync::atomic::Ordering::{Relaxed, SeqCst};

use reclaim::align::Aligned8;
use reclaim::leak::{Guard, Header, Leaking};
use reclaim::atomic::CompareExchangeFailure;
use reclaim::reclaim::Guarded;
use reclaim::{
    acquire_if_equal, header_address, record_address, Atomic, GlobalReclaim, Marked, MarkedNonNull, MarkedPointer, MarkedPtr, NotEqualError,
    Protect, Reclaim, Record, Shared, Unlinked, Unprotected,
};

type Value = Aligned8<u64>;
type LeakAtomic = Atomic<Value, Leaking, 3>;
type LeakShared<'g> = Shared<'g, Value, Leaking, 3>;
type LeakUnlinked = Unlinked<Value, Leaking, 3>;
type LeakUnprotected = Unprotected<Value, Leaking, 3>;

fn address_of<T>(value: &T) -> usize {
    MarkedPtr::<T, 0>::from_ref(value).into_usize()
}

#[test]
fn atomic_loads() {
    let value = Value::new(1);
    let address = address_of(&value);
    let atomic = LeakAtomic::from_raw(MarkedPtr::compose(address, 0b10));

    assert_eq!(atomic.load_raw(Relaxed).decompose(), (address, 0b10));
    let unprotected = atomic.load_unprotected(Relaxed).unwrap();
    assert_eq!(unprotected.as_marked_ptr().decompose(), (address, 0b10));
    assert!(atomic.load_marked_unprotected(SeqCst).is_value());

    let shared = atomic.load_shared(Relaxed).unwrap();
    assert_eq!(LeakShared::decompose(shared).1, 0b10);

    let mut guard = Guard::new();
    let loaded = atomic.load(Relaxed, &mut guard).unwrap();
    assert_eq!(loaded.as_marked_ptr().into_usize(), address | 0b10);

    let region = Guard::new();
    let marked = atomic.load_marked(Relaxed, &region);
    assert_eq!(MarkedPointer::decompose_tag(&marked), 0b10);
}

#[test]
fn atomic_null_loads() {
    let atomic = LeakAtomic::null();
    assert!(atomic.load_unprotected(Relaxed).is_none());
    assert!(matches!(atomic.load_marked_shared(Relaxed), Marked::Null(0)));

    let tagged = LeakAtomic::from_raw(MarkedPtr::compose(0, 0b11));
    assert_eq!(tagged.load_marked_unprotected(Relaxed), Marked::Null(0b11));
    assert!(tagged.load_shared(Relaxed).is_none());
    assert_eq!(LeakAtomic::default().load_raw(Relaxed).into_usize(), 0);
}

#[test]
fn atomic_load_if_equal() {
    let value = Value::new(1);
    let atomic = LeakAtomic::from_raw(MarkedPtr::from_ref(&value));
    let mut guard = Guard::new();

    let raw = atomic.load_raw(Relaxed);
    let res = atomic.load_if_equal(raw, Relaxed, &mut guard);
    assert_eq!(res.unwrap().unwrap().as_marked_ptr(), raw);

    let other = MarkedPtr::compose(address_of(&value), 1);
    assert_eq!(atomic.load_if_equal(other, Relaxed, &mut guard).err(), Some(NotEqualError));
    assert!(atomic.load_marked_if_equal(other, Relaxed, &guard).is_err());
    assert!(atomic.load_marked_if_equal(raw, Relaxed, &guard).is_ok());
}

#[test]
fn atomic_store_swap() {
    let first = Value::new(1);
    let second = Value::new(2);
    let atomic = LeakAtomic::null();

    let shared = LeakShared::from_marked_non_null(MarkedNonNull::from_ref(&first));
    atomic.store(shared, Relaxed);
    assert_eq!(atomic.load_raw(Relaxed).into_usize(), address_of(&first));

    let unprotected = LeakUnprotected::from_marked_non_null(MarkedNonNull::from_ref(&second));
    let prev = atomic.swap(unprotected, Relaxed).unwrap();
    assert_eq!(prev.as_marked_ptr().into_usize(), address_of(&first));
    Leaking::leak(prev);

    let prev = atomic.swap(LeakShared::none(), Relaxed).unwrap();
    assert_eq!(prev.as_marked_ptr().into_usize(), address_of(&second));
    assert!(atomic.swap(LeakShared::null_with_tag(1), Relaxed).is_none());
    assert_eq!(atomic.load_raw(Relaxed).into_usize(), 1);
    Leaking::retire(prev);
}

#[test]
fn atomic_compare_exchange() {
    let first = Value::new(1);
    let second = Value::new(2);
    let atomic = LeakAtomic::from_raw(MarkedPtr::from_ref(&first));

    let current = atomic.load_unprotected(Relaxed).unwrap();
    let new = LeakUnprotected::from_marked_non_null(MarkedNonNull::from_ref(&second));
    let unlinked: LeakUnlinked = atomic.compare_exchange(current, new, SeqCst, SeqCst).ok().unwrap();
    assert_eq!(unlinked.as_marked_ptr().into_usize(), address_of(&first));

    let failure = atomic.compare_exchange(current, LeakShared::none(), SeqCst, SeqCst).err().unwrap();
    assert!(failure.input.is_none());
    assert_eq!(failure.loaded.unwrap().as_marked_ptr().into_usize(), address_of(&second));

    let current = atomic.load_marked_unprotected(Relaxed);
    loop {
        if atomic.compare_exchange_weak(current, LeakShared::null(), SeqCst, Relaxed).is_ok() {
            break;
        }
    }
    assert_eq!(atomic.load_raw(Relaxed).into_usize(), 0);
}

#[test]
fn guard_try_fuse() {
    let value = Value::new(1);
    let atomic = LeakAtomic::from_raw(MarkedPtr::compose(address_of(&value), 0b100));
    let guarded = Leaking::guard().try_fuse(&atomic, Relaxed).ok().unwrap();
    assert_eq!(guarded.shared().as_marked_ptr().decompose(), (address_of(&value), 0b100));
    let _guard: Guard = guarded.into_guard();

    let null = LeakAtomic::null();
    assert!(Guard::default().try_fuse(&null, Relaxed).is_err());
}

#[test]
fn reference_tags() {
    let value = Value::new(1);
    let ptr = MarkedNonNull::from_ref(&value);
    let shared = LeakShared::from_marked_non_null(ptr);

    let tagged = LeakShared::with_tag(shared, 0b101);
    let (untagged, tag) = LeakShared::decompose(tagged);
    assert_eq!(tag, 0b101);
    assert_eq!(LeakShared::into_marked_non_null(untagged), ptr);
    assert_eq!(MarkedPointer::clear_tag(tagged).as_marked_ptr(), ptr.into_marked_ptr());

    let unprotected = LeakShared::into_unprotected(tagged);
    assert_eq!(
        LeakUnprotected::into_marked_non_null(unprotected),
        MarkedNonNull::compose(address_of(&value), 0b101)
    );
    let back: LeakShared = LeakUnprotected::into_shared(unprotected);
    assert_eq!(back.as_marked_ptr(), tagged.as_marked_ptr());

    let unlinked = LeakUnlinked::from_marked_ptr(tagged.as_marked_ptr());
    let unlinked = LeakUnlinked::with_tag(unlinked, 0b11);
    assert_eq!(MarkedPointer::decompose_tag(&unlinked), 0b11);
    let unprotected = LeakUnlinked::into_unprotected(unlinked);
    assert_eq!(LeakUnprotected::decompose(unprotected).1, 0b11);

    assert!(LeakUnlinked::none().is_none());
    assert_eq!(LeakUnprotected::null(), Marked::Null(0));
}

/// A reclamation scheme that leaks like `Leaking`, but allocates a checksum
/// header with every record.
struct CheckedLeaking;

impl Reclaim for CheckedLeaking {
    type Local = ();

    type RecordHeader = Header;

    fn retire_local<T: 'static, const N: usize>(_: &(), unlinked: Unlinked<T, Self, N>) {
        let _ = unlinked;
    }

    fn retire_local_unchecked<T, const N: usize>(_: &(), unlinked: Unlinked<T, Self, N>) {
        let _ = unlinked;
    }
}

#[test]
fn record_and_header() {
    let record: Record<u32, CheckedLeaking> = Record::new(7);
    assert_eq!(*record.elem(), 7);
    assert_eq!(record.header().checksum, 0xDEAD_BEEF);

    let record: Record<u32, CheckedLeaking> = Record::with_header(8, Header { checksum: 1 });
    assert_eq!(*record.elem(), 8);
    assert_eq!(record.header().checksum, 1);

    let leaking: Record<u32, Leaking> = Record::new(9);
    assert_eq!(*leaking.header(), ());
}

#[test]
fn not_equal_error_message() {
    assert_eq!(NotEqualError.message(), "acquired value does not match `expected`.");
}

#[test]
fn acquire_if_equal_compares_the_snapshot() {
    let value = Value::new(1);
    let raw = MarkedPtr::<Value, 3>::compose(address_of(&value), 0b1);
    let acquired: Result<Marked<LeakShared<'_>>, NotEqualError> = acquire_if_equal(raw, raw);
    assert_eq!(acquired.unwrap().as_marked_ptr(), raw);

    let other = MarkedPtr::<Value, 3>::compose(address_of(&value), 0b10);
    let refused: Result<Marked<LeakShared<'_>>, NotEqualError> = acquire_if_equal(raw, other);
    assert_eq!(refused.err(), Some(NotEqualError));

    let tag_only = MarkedPtr::<Value, 3>::compose(0, 0b11);
    let null: Result<Marked<LeakShared<'_>>, NotEqualError> = acquire_if_equal(tag_only, tag_only);
    assert!(matches!(null, Ok(Marked::Null(0b11))));
}

#[test]
fn fuse_keeps_the_protected_value() {
    let value = Value::new(1);
    let ptr = MarkedNonNull::<Value, 3>::compose(address_of(&value), 0b10);
    let fused = Guarded::<Value, Guard, 3>::fuse(Guard::new(), Marked::Value(ptr));
    let guarded = fused.ok().unwrap();
    assert_eq!(guarded.shared().as_marked_ptr().into_usize(), address_of(&value) | 0b10);
    assert_eq!(guarded.into_guard(), Guard::new());

    let refused = Guarded::<Value, Guard, 3>::fuse(Guard::new(), Marked::Null(0b1));
    assert_eq!(refused.err(), Some(Guard::new()));
}

#[test]
fn compare_exchange_failure_holds_the_found_value() {
    let value = Value::new(1);
    let found = MarkedPtr::<Value, 3>::compose(address_of(&value), 0b100);
    let failure: CompareExchangeFailure<Value, Leaking, Option<LeakUnlinked>, 3> =
        CompareExchangeFailure::new(found, None);
    assert_eq!(failure.loaded.unwrap().as_marked_ptr(), found);
    assert!(failure.input.is_none());

    let null: CompareExchangeFailure<Value, Leaking, Option<LeakUnlinked>, 3> =
        CompareExchangeFailure::new(MarkedPtr::compose(0, 0b1), None);
    assert!(null.loaded.is_none());
}

#[test]
fn record_new_has_the_default_header() {
    let record: Record<i32, CheckedLeaking> = Record::new(7);
    assert_eq!(record.header.checksum, 0xDEAD_BEEF);
    assert_eq!(record.elem, 7);
}

#[test]
fn from_ref_has_no_tag() {
    let value = Value::new(3);
    let marked = MarkedPtr::<Value, 3>::from_ref(&value);
    assert_eq!(marked.decompose_tag(), 0);
    assert_eq!(marked.decompose_ptr(), marked.into_usize());
    let non_null = MarkedNonNull::<Value, 3>::from_ref(&value);
    assert_eq!(non_null.decompose_tag(), 0);
}

#[test]
fn record_and_header_addresses() {
    assert_eq!(record_address(0x1010, 0x10), 0x1000);
    assert_eq!(record_address(0x1000, 0), 0x1000);
    assert_eq!(header_address(0x1010, 0x10, 0x0), 0x1000);
    assert_eq!(header_address(0x1008, 0x8, 0x4), 0x1004);
}
