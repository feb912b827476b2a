use bounded_types::AtomicU8;
use std::sync::atomic::Ordering;

#[test]
fn load_returns_the_stored_byte() {
    let a = AtomicU8::new(42);
    assert_eq!(a.load(Ordering::Relaxed), 42);
    assert_eq!(a.load(Ordering::Acquire), 42);
    assert_eq!(a.load(Ordering::SeqCst), 42);
}

#[test]
fn load_of_extreme_bytes() {
    assert_eq!(AtomicU8::new(0).load(Ordering::SeqCst), 0);
    assert_eq!(AtomicU8::new(255).load(Ordering::Acquire), 255);
}

#[test]
fn repeated_loads_agree() {
    let a = AtomicU8::new(7);
    let first = a.load(Ordering::Acquire);
    let second = a.load(Ordering::Relaxed);
    assert_eq!(first, 7);
    assert_eq!(second, first);
}
