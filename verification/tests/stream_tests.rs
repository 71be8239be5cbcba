use stream::Stream;

#[test]
fn head_value_stability() {
    let s = Stream::from_fn_copy(7u64, |x: u64| x + 1);
    let r1 = s.head();
    let r2 = s.head();
    assert_eq!(*r1, 7);
    assert_eq!(*r2, 7);
    // both references are backed by the same underlying value
    assert!(std::ptr::eq(r1, r2));
}

#[test]
fn structural_determinism_in_order() {
    let s = Stream::from_fn(3u64, |x: u64| x * 2);
    let mut it = s.iter();
    let mut expected: u64 = 3;
    for _ in 0..12 {
        assert_eq!(it.next(), expected);
        expected *= 2;
    }
}

#[test]
fn structural_determinism_out_of_order() {
    let s = Stream::from_fn(3u64, |x: u64| x * 2);
    // reach position 5 first …
    let deep = s.tail().tail().tail().tail().tail();
    assert_eq!(*deep.head(), 96);
    // … then position 2 …
    assert_eq!(*s.tail().tail().head(), 12);
    // … and every position still holds its value
    let mut it = s.iter();
    for expected in [3u64, 6, 12, 24, 48, 96, 192] {
        assert_eq!(it.next(), expected);
    }
}

#[test]
fn tail_shares_one_node() {
    let s = Stream::from_fn_copy(1u64, |x: u64| x + 10);
    let t1 = s.tail();
    let t2 = s.tail();
    assert_eq!(*t1.head(), 11);
    assert_eq!(*t2.head(), 11);
    // the two handles reference the same logical node
    assert!(std::ptr::eq(t1.head(), t2.head()));
    // releasing one handle does not invalidate the other
    drop(t1);
    assert_eq!(*t2.head(), 11);
    assert_eq!(*t2.tail().head(), 21);
}

#[test]
fn iteration_never_ends() {
    let s = Stream::from_fn_copy(0u64, |x: u64| x + 1);
    let mut it = s.iter();
    for i in 0..10_000u64 {
        assert_eq!(it.next(), i);
    }
}

#[test]
fn iterators_are_independent_and_cheap() {
    let s = Stream::from_fn_copy(5u64, |x: u64| x + 5);
    let mut a = s.iter();
    assert_eq!(a.next(), 5);
    assert_eq!(a.next(), 10);
    // a fresh iterator starts from its anchor again
    let mut b = s.iter();
    assert_eq!(b.next(), 5);
    // an iterator anchored at a suffix starts there
    let suffix = s.tail();
    let mut c = suffix.iter();
    assert_eq!(c.next(), 10);
    assert_eq!(a.next(), 15);
}

#[test]
fn generator_equivalence() {
    let f = |x: u64| x.wrapping_mul(3).wrapping_add(1);
    let s1 = Stream::from_fn(9u64, f);
    let s2 = Stream::from_fn_copy(9u64, f);
    let mut it1 = s1.iter();
    let mut it2 = s2.iter();
    for _ in 0..50 {
        assert_eq!(it1.next(), it2.next());
    }
}

#[test]
fn from_fn_on_clone_only_type() {
    let s = Stream::from_fn(String::from("x"), |s: String| s + "a");
    assert_eq!(s.head(), "x");
    let t = s.tail();
    assert_eq!(t.head(), "xa");
    assert_eq!(*t.tail().head(), String::from("xaa"));
    let mut it = t.iter();
    assert_eq!(it.next(), "xa");
    assert_eq!(it.next(), "xaa");
    assert_eq!(it.next(), "xaaa");
}

#[test]
fn stream_clone_shares() {
    let s = Stream::from_fn_copy(2u64, |x: u64| x * x);
    let s2 = s.clone();
    assert!(std::ptr::eq(s.head(), s2.head()));
    assert_eq!(*s2.tail().head(), 4);
    assert_eq!(*s.tail().head(), 4);
}
