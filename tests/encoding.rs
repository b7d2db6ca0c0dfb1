use scm_values::fib::fibonacci;
use scm_values::list::{make_list, reverse};
use scm_values::value::{
    car, cdr, cons, is_integer, is_null, is_pair, ref_to_addr, Heap, Scm, ScmError, ScmValue,
    ALIGNMENT, FIXNUM_MAX, FIXNUM_MIN,
};

fn exactly_one_tag(heap: &Heap, v: Scm) -> bool {
    let object = v.as_ref(heap).is_some();
    let n = [is_integer(v), is_pair(v), is_null(v), object]
        .iter()
        .filter(|b| **b)
        .count();
    n == 1
}

#[test]
fn from_int_five_round_trips() {
    let v = Scm::from_int(5);
    assert_eq!(v.as_integer(), Some(5));
    assert!(!is_pair(v));
    assert!(is_integer(v));
}

#[test]
fn cons_of_one_and_nil() {
    let mut heap = Heap::new();
    let one = Scm::from_int(1);
    let p = cons(&mut heap, one, Scm::nil());
    assert!(is_pair(p));
    assert_eq!(car(&heap, p), Some(Scm::from_int(1)));
    assert_eq!(cdr(&heap, p), Some(Scm::nil()));
}

#[test]
fn reverse_of_ten_element_list() {
    let mut heap = Heap::new();
    let list = make_list(&mut heap, 10);
    // the built list reads 0, 1, ..., 9 head first
    let mut v = list;
    let mut got = Vec::new();
    while is_pair(v) {
        got.push(car(&heap, v).unwrap().as_integer().unwrap());
        v = cdr(&heap, v).unwrap();
    }
    assert!(is_null(v));
    assert_eq!(got, (0..10).collect::<Vec<i64>>());

    let r = reverse(&mut heap, list);
    // the reversal is a proper list reading 9, 8, ..., 0 head first
    let mut v = r;
    let mut back = Vec::new();
    while is_pair(v) {
        back.push(car(&heap, v).unwrap().as_integer().unwrap());
        v = cdr(&heap, v).unwrap();
    }
    assert!(is_null(v));
    assert_eq!(back, (0..10).rev().collect::<Vec<i64>>());
    assert_eq!(heap.pair_count(), 20);
}

fn read_list(heap: &Heap, list: Scm) -> Vec<Scm> {
    let mut v = list;
    let mut out = Vec::new();
    while is_pair(v) {
        out.push(car(heap, v).unwrap());
        v = cdr(heap, v).unwrap();
    }
    assert!(is_null(v));
    out
}

#[test]
fn reverse_three_elements_reads_each_by_car() {
    let mut heap = Heap::new();
    let list = make_list(&mut heap, 3);
    let r = reverse(&mut heap, list);
    let second = cdr(&heap, r).unwrap();
    assert_eq!(car(&heap, r), Some(Scm::from_int(2)));
    assert_eq!(car(&heap, second), Some(Scm::from_int(1)));
    let third = cdr(&heap, second).unwrap();
    assert_eq!(car(&heap, third), Some(Scm::from_int(0)));
    assert!(is_null(cdr(&heap, third).unwrap()));
}

#[test]
fn reverse_twice_gives_back_the_elements() {
    let mut heap = Heap::new();
    let nil = Scm::nil();
    let mut list = nil;
    for k in [7i64, -2, 0, 5] {
        list = cons(&mut heap, Scm::from_int(k), list);
    }
    let once = reverse(&mut heap, list);
    let twice = reverse(&mut heap, once);
    assert_ne!(twice, list);
    assert_eq!(read_list(&heap, twice), read_list(&heap, list));
    let mut rev = read_list(&heap, list);
    rev.reverse();
    assert_eq!(read_list(&heap, once), rev);
    assert_eq!(heap.pair_count(), 12);
}

#[test]
fn fresh_object_is_only_generic() {
    let mut heap = Heap::new();
    let o = Scm::new(&mut heap, ScmValue::Vector(vec![]));
    assert!(!is_integer(o));
    assert!(!is_pair(o));
    assert!(!is_null(o));
    assert!(o.as_ref(&heap).is_some());
}

#[test]
fn nil_is_null_and_zero_is_not() {
    assert!(is_null(Scm::nil()));
    assert!(!is_null(Scm::from_int(0)));
}

#[test]
fn fibonacci_matches_sequence() {
    let expected = [1i64, 1, 2, 3, 5, 8, 13, 21, 34, 55, 89];
    for (n, e) in expected.iter().enumerate() {
        assert_eq!(fibonacci(Scm::from_int(n as i64)).as_integer(), Some(*e));
    }
    assert_eq!(fibonacci(Scm::from_int(-3)).as_integer(), Some(1));
}

#[test]
fn tags_disjoint_on_constructed_values() {
    let mut heap = Heap::new();
    let i = Scm::from_int(-7);
    let n = Scm::nil();
    let p = cons(&mut heap, i, n);
    let o = Scm::new(&mut heap, ScmValue::Vector(vec![i, p]));
    for v in [i, n, p, o, Scm::from_int(0), Scm::from_int(FIXNUM_MAX)] {
        assert!(exactly_one_tag(&heap, v));
    }
}

#[test]
fn integer_round_trip_edges() {
    for i in [0i64, 1, -1, 42, -42, FIXNUM_MIN, FIXNUM_MAX, FIXNUM_MIN + 1, FIXNUM_MAX - 1] {
        assert_eq!(Scm::from_int(i).as_integer(), Some(i));
        assert_eq!(Scm::try_from_int(i).map(|v| v.as_integer()), Ok(Some(i)));
    }
}

#[test]
fn out_of_range_integers_are_refused() {
    assert_eq!(Scm::try_from_int(FIXNUM_MAX + 1), Err(ScmError::OutOfRange));
    assert_eq!(Scm::try_from_int(FIXNUM_MIN - 1), Err(ScmError::OutOfRange));
    assert_eq!(Scm::try_from_int(i64::MAX), Err(ScmError::OutOfRange));
    assert_eq!(Scm::try_from_int(i64::MIN), Err(ScmError::OutOfRange));
}

#[test]
fn pair_round_trip_many() {
    let mut heap = Heap::new();
    let mut prev = Scm::nil();
    for k in 0..10i64 {
        let a = Scm::from_int(k);
        let p = cons(&mut heap, a, prev);
        assert_eq!(car(&heap, p), Some(a));
        assert_eq!(cdr(&heap, p), Some(prev));
        prev = p;
    }
}

#[test]
fn tags_not_aliased() {
    let mut heap = Heap::new();
    for k in -5..5i64 {
        let x = Scm::from_int(k);
        let p = cons(&mut heap, x, x);
        assert!(is_integer(x));
        assert!(!is_pair(x));
        assert!(!is_null(x));
        assert!(is_pair(p));
        assert!(!is_integer(p));
        assert!(!is_null(p));
    }
    let n = Scm::nil();
    assert!(!is_integer(n));
    assert!(!is_pair(n));
}

#[test]
fn record_addresses_are_aligned() {
    assert_eq!(ALIGNMENT, 4);
    assert_eq!(ref_to_addr(0), 0);
    assert_eq!(ref_to_addr(1), 4);
    assert_eq!(ref_to_addr(7), 28);
    for k in 0..100u64 {
        assert_eq!(ref_to_addr(k) % ALIGNMENT, 0);
    }
}

#[test]
fn inspection_is_repeatable() {
    let mut heap = Heap::new();
    let a = Scm::from_int(3);
    let p = cons(&mut heap, a, Scm::nil());
    let first = (car(&heap, p), cdr(&heap, p), is_pair(p), p.as_integer());
    let second = (car(&heap, p), cdr(&heap, p), is_pair(p), p.as_integer());
    assert_eq!(first, second);
    let _ = make_list(&mut heap, 5);
    assert_eq!(car(&heap, p), Some(a));
    assert_eq!(a.as_integer(), a.as_integer());
}

#[test]
fn inspection_mismatch_gives_none() {
    let mut heap = Heap::new();
    let i = Scm::from_int(9);
    assert_eq!(car(&heap, i), None);
    assert_eq!(cdr(&heap, Scm::nil()), None);
    assert_eq!(Scm::nil().as_integer(), None);
    let p = cons(&mut heap, i, i);
    assert_eq!(p.as_integer(), None);
    assert!(p.as_ref(&heap).is_none());
    // a pair value whose record is not held in this heap
    let other = Heap::new();
    assert_eq!(car(&other, p), None);
    assert_eq!(p.as_pair(&other), None);
}

#[test]
fn objects_are_held_and_read_back() {
    let mut heap = Heap::new();
    let items = vec![Scm::from_int(1), Scm::nil()];
    let o = Scm::new(&mut heap, ScmValue::Vector(items.clone()));
    assert!(!o.is_immediate());
    assert!(!is_pair(o));
    match o.as_ref(&heap) {
        Some(ScmValue::Vector(v)) => assert_eq!(v, &items),
        None => panic!("object expected"),
    }
    assert_eq!(heap.object_count(), 1);
    assert_eq!(heap.pair_count(), 0);
}

#[test]
fn immediates_and_nil() {
    let mut heap = Heap::new();
    assert!(Scm::from_int(12).is_immediate());
    assert!(Scm::nil().is_immediate());
    assert!(Scm::nil().is_nil());
    assert!(!Scm::from_int(0).is_nil());
    let p = cons(&mut heap, Scm::nil(), Scm::nil());
    assert!(!p.is_immediate());
    assert!(!p.is_nil());
}

#[test]
fn negative_integers_decode_with_sign() {
    assert_eq!(Scm::from_int(-1).as_integer(), Some(-1));
    assert_eq!(Scm::from_int(-123456789).as_integer(), Some(-123456789));
}

#[test]
fn make_list_empty_is_nil() {
    let mut heap = Heap::new();
    let l = make_list(&mut heap, 0);
    assert!(is_null(l));
    let r = reverse(&mut heap, l);
    assert!(is_null(r));
    assert_eq!(heap.pair_count(), 0);
}
