use scm_values::boxed;
use scm_values::one_bit;

#[test]
fn one_bit_integer_vs_pointers() {
    let mut heap = one_bit::Heap::new();
    for i in 0..10 {
        let x = one_bit::Scm::from_int(i);
        let p = one_bit::cons(&mut heap, x, x);

        assert!(one_bit::is_integer(x));
        assert!(!one_bit::is_pair(&heap, x));
        assert!(one_bit::is_pair(&heap, p));
        assert!(!one_bit::is_integer(p));
    }
}

#[test]
fn one_bit_round_trips() {
    let mut heap = one_bit::Heap::new();
    for i in [0i64, 5, -5, one_bit::FIXNUM_MIN, one_bit::FIXNUM_MAX] {
        assert_eq!(one_bit::Scm::from_int(i).as_integer(), Some(i));
    }
    let nil = one_bit::Scm::new(&mut heap, one_bit::ScmValue::Nil);
    let one = one_bit::Scm::from_int(1);
    let p = one_bit::cons(&mut heap, one, nil);
    assert_eq!(one_bit::car(&heap, p), Some(one));
    assert_eq!(one_bit::cdr(&heap, p), Some(nil));
    assert_eq!(p.as_pair(&heap), Some((one, nil)));
    assert!(one_bit::is_null(&heap, nil));
    assert!(!one_bit::is_null(&heap, one));
    assert!(!one_bit::is_null(&heap, p));
    assert!(!one_bit::is_pair(&heap, nil));
    assert!(!one_bit::is_integer(nil));
    assert!(one.is_immediate());
    assert!(!nil.is_immediate());
    assert!(matches!(nil.as_ref(&heap), Some(one_bit::ScmValue::Nil)));
    assert_eq!(one_bit::car(&heap, one), None);
    assert_eq!(heap.record_count(), 2);
}

#[test]
fn one_bit_addresses_aligned() {
    assert_eq!(one_bit::ref_to_addr(0), 0);
    assert_eq!(one_bit::ref_to_addr(3), 6);
    for k in 0..50u64 {
        assert_eq!(one_bit::ref_to_addr(k) % one_bit::ALIGNMENT, 0);
    }
}

#[test]
fn one_bit_value_from_other_heap_is_no_pair() {
    let mut heap = one_bit::Heap::new();
    let x = one_bit::Scm::from_int(2);
    let p = one_bit::cons(&mut heap, x, x);
    let other = one_bit::Heap::new();
    assert!(!one_bit::is_pair(&other, p));
    assert_eq!(one_bit::car(&other, p), None);
    assert!(p.as_ref(&other).is_none());
}

#[test]
fn boxed_integer_vs_pointers() {
    let mut heap = boxed::Heap::new();
    for i in 0..10 {
        let x = boxed::make_int(&mut heap, i);
        let p = boxed::cons(&mut heap, x, x);

        assert!(boxed::is_integer(&heap, x));
        assert!(!boxed::is_pair(&heap, x));
        assert!(boxed::is_pair(&heap, p));
        assert!(!boxed::is_integer(&heap, p));
    }
}

#[test]
fn boxed_round_trips() {
    let mut heap = boxed::Heap::new();
    let nil = boxed::make_scm(&mut heap, boxed::ScmValue::Nil);
    let big = boxed::make_int(&mut heap, i64::MAX);
    let small = boxed::make_int(&mut heap, i64::MIN);
    assert_eq!(boxed::as_integer(&heap, big), Some(i64::MAX));
    assert_eq!(boxed::as_integer(&heap, small), Some(i64::MIN));
    assert_eq!(boxed::as_integer(&heap, nil), None);
    let p = boxed::cons(&mut heap, big, nil);
    assert_eq!(boxed::car(&heap, p), Some(big));
    assert_eq!(boxed::cdr(&heap, p), Some(nil));
    assert_eq!(boxed::car(&heap, big), None);
    assert!(boxed::is_null(&heap, nil));
    assert!(!boxed::is_null(&heap, p));
    assert!(!boxed::is_null(&heap, big));
    assert_eq!(heap.record_count(), 4);
    let other = boxed::Heap::new();
    assert!(!boxed::is_pair(&other, p));
    assert_eq!(boxed::cdr(&other, p), None);
}
