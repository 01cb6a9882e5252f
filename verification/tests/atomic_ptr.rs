use std::sync::atomic::Ordering;

use reclaim::align::Aligned8;
use reclaim::{AtomicMarkedPtr, MarkedPtr};

type AtomicMarkedPtr3<T> = AtomicMarkedPtr<T, 3>;
type MarkedPtr3<T> = MarkedPtr<T, 3>;

fn address_of<T>(value: &T) -> usize {
    MarkedPtr::<T, 0>::from_ref(value).into_usize()
}

#[test]
fn atomic_null() {
    let ptr: AtomicMarkedPtr3<usize> = AtomicMarkedPtr::null();
    assert_eq!(ptr.load(Ordering::Relaxed).into_usize(), 0);
    assert_eq!(ptr.into_inner().into_usize(), 0);
}

#[test]
fn atomic_new() {
    let reference = &Aligned8::new(1usize);
    let marked = AtomicMarkedPtr3::new(MarkedPtr3::from_ref(reference));
    let from = AtomicMarkedPtr3::<Aligned8<usize>>::new(MarkedPtr::new(address_of(reference)));
    assert_eq!(marked.load(Ordering::Relaxed).into_usize(), address_of(reference));
    assert_eq!(from.load(Ordering::Relaxed).into_usize(), address_of(reference));
}

#[test]
fn atomic_store() {
    let value = Aligned8::new(1usize);
    let raw = MarkedPtr3::from_ref(&value);
    let atomic = AtomicMarkedPtr3::null();

    atomic.store(raw, Ordering::Relaxed);
    assert_eq!(atomic.load(Ordering::Relaxed), raw);
}

#[test]
fn atomic_swap() {
    let reference = &1i32;
    let atomic: AtomicMarkedPtr3<i32> = AtomicMarkedPtr::new(MarkedPtr::from_ref(reference));
    let swap = atomic.swap(MarkedPtr::null(), Ordering::Relaxed);
    assert_eq!(swap.into_usize(), address_of(reference));
    assert_eq!(atomic.load(Ordering::Relaxed).into_usize(), 0);
}

#[test]
fn compare_exchange() {
    let aligned = Aligned8::new(1);
    let marked = MarkedPtr3::<Aligned8<i32>>::compose(address_of(&aligned), 0b11);
    let swap = MarkedPtr3::compose(0, 0b100);
    let atomic = AtomicMarkedPtr3::new(marked);
    let prev =
        atomic.compare_exchange(marked, swap, Ordering::Relaxed, Ordering::Relaxed).unwrap();

    assert_eq!(prev, marked);
    assert_eq!(atomic.load(Ordering::Relaxed), swap);
}

#[test]
fn compare_exchange_failure_returns_current_value() {
    let aligned = Aligned8::new(1);
    let marked = MarkedPtr3::<Aligned8<i32>>::compose(address_of(&aligned), 0b1);
    let other = MarkedPtr3::<Aligned8<i32>>::compose(address_of(&aligned), 0b10);
    let atomic = AtomicMarkedPtr3::new(marked);

    let res = atomic.compare_exchange(other, MarkedPtr::null(), Ordering::SeqCst, Ordering::SeqCst);
    assert_eq!(res, Err(marked));
    assert_eq!(atomic.load(Ordering::SeqCst), marked);
}

#[test]
fn compare_and_swap_and_weak() {
    let aligned = Aligned8::new(1);
    let marked = MarkedPtr3::<Aligned8<i32>>::compose(address_of(&aligned), 0b1);
    let atomic = AtomicMarkedPtr3::new(MarkedPtr::null());

    let prev = atomic.compare_and_swap(MarkedPtr::null(), marked, Ordering::SeqCst);
    assert_eq!(prev, MarkedPtr::null());
    assert_eq!(atomic.load(Ordering::SeqCst), marked);

    loop {
        if atomic
            .compare_exchange_weak(marked, MarkedPtr::null(), Ordering::SeqCst, Ordering::Relaxed)
            .is_ok()
        {
            break;
        }
    }
    assert_eq!(atomic.load(Ordering::SeqCst), MarkedPtr::null());
    let default: AtomicMarkedPtr3<Aligned8<i32>> = AtomicMarkedPtr::default();
    assert_eq!(default.into_inner(), MarkedPtr::null());
}
