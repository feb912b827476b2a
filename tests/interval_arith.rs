use bounded_types::{is_overflow_safe, is_overflow_safe_mul, BoundedInt};

fn bounds(b: &BoundedInt) -> (usize, usize, usize) {
    (b.lower(), b.value(), b.upper())
}

#[test]
fn exact_integer_has_degenerate_bounds() {
    assert_eq!(bounds(&BoundedInt::new(9)), (9, 9, 9));
    assert_eq!(bounds(&BoundedInt::new(0)), (0, 0, 0));
}

#[test]
fn addition_adds_bounds_and_values() {
    let r = BoundedInt::new(3).add(BoundedInt::new(4));
    assert_eq!(bounds(&r), (7, 7, 7));
}

#[test]
fn multiplication_multiplies_bounds_and_values() {
    let r = BoundedInt::new(3).mul(BoundedInt::new(5));
    assert_eq!(bounds(&r), (15, 15, 15));
}

#[test]
fn composed_operations_stay_within_bounds() {
    let a = BoundedInt::new(2).widen(1, 4);
    let b = BoundedInt::new(3).widen(3, 6);
    let s = a.add(b);
    assert_eq!(bounds(&s), (4, 5, 10));
    let p = s.mul(BoundedInt::new(2).widen(0, 3));
    assert_eq!(bounds(&p), (0, 10, 30));
    assert!(p.lower() <= p.value() && p.value() <= p.upper());
}

#[test]
fn overflow_check_at_capacity_boundary() {
    assert!(is_overflow_safe(usize::MAX - 1, 1));
    assert!(!is_overflow_safe(usize::MAX, 1));
    assert!(is_overflow_safe(usize::MAX, 0));
    let half = 1usize << (usize::BITS / 2);
    assert!(is_overflow_safe_mul(half - 1, half + 1));
    assert!(!is_overflow_safe_mul(half, half));
    assert!(is_overflow_safe_mul(usize::MAX, 1));
    assert!(!is_overflow_safe_mul(usize::MAX, 2));
}

#[test]
fn addition_accepted_exactly_at_capacity() {
    let r = BoundedInt::new(usize::MAX - 1).add(BoundedInt::new(1));
    assert_eq!(bounds(&r), (usize::MAX, usize::MAX, usize::MAX));
}

#[test]
fn widening_keeps_the_value() {
    let w = BoundedInt::new(5).widen(2, 8);
    assert_eq!(bounds(&w), (2, 5, 8));
}

#[test]
fn widen_then_narrow_gives_original_back() {
    let w = BoundedInt::new(5).widen(0, 100);
    let back = w.narrow(5, 5).unwrap();
    assert_eq!(bounds(&back), (5, 5, 5));
}

#[test]
fn narrow_refuses_a_value_outside_the_bounds() {
    assert!(BoundedInt::new(5).widen(0, 10).narrow(6, 10).is_none());
    assert!(BoundedInt::new(5).narrow(0, 4).is_none());
    let n = BoundedInt::new(5).widen(0, 10).narrow(5, 7).unwrap();
    assert_eq!(bounds(&n), (5, 5, 7));
}
