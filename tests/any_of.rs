use anylr::{AnyLR, AnyOf, EitherOf, SomeOf, TrAnyOf, TrInverseLR};

#[test]
fn split_of_pair_gives_pair_back() {
    let cases: Vec<(Option<i32>, Option<&str>)> = vec![
        (Some(1), Some("a")),
        (Some(2), None),
        (None, Some("b")),
        (None, None),
    ];
    for (a, b) in cases {
        assert_eq!(AnyOf::from((a, b)).split(), (a, b));
    }
}

#[test]
fn map_left_on_both() {
    let a = AnyOf::new_both(1, "x").map_left(|n| n + 1);
    assert_eq!(a.split(), (Some(2), Some("x")));
}

#[test]
fn neither_contains_nothing() {
    let a = AnyOf::<i32, i32>::new_neither();
    assert!(!a.contains_left());
    assert!(!a.contains_right());
    assert!(a.is_neither());
    assert!(!a.is_both());
}

#[test]
fn constructors_fill_their_slots() {
    let l = AnyOf::<usize, u8>::new_left(0usize);
    assert!(l.contains_left());
    assert!(!l.contains_right());
    let r = AnyOf::<usize, u8>::new_right(7u8);
    assert!(!r.contains_left());
    assert!(r.contains_right());
    let b = AnyOf::<usize, u8>::new_both(3, 4);
    assert!(b.contains_left());
    assert!(b.contains_right());
    assert!(b.is_both());
    assert!(!b.is_neither());
    assert_eq!(b.split(), (Some(3usize), Some(4u8)));
}

#[test]
fn default_is_neither() {
    let a: AnyOf<u8, u8> = AnyOf::default();
    assert!(a.is_neither());
}

#[test]
fn map_left_keeps_right_value() {
    let a = AnyOf::<i32, &str>::new_right("r").map_left(|n| n * 10);
    assert_eq!(a.split(), (None, Some("r")));
    let n = AnyOf::<i32, &str>::new_neither().map_left(|n| n * 10);
    assert!(n.is_neither());
}

#[test]
fn map_right_keeps_left_value() {
    let a = AnyOf::<i32, i32>::new_left(5).map_right(|n| n * 10);
    assert_eq!(a.split(), (Some(5), None));
    let b = AnyOf::<i32, i32>::new_both(5, 6).map_right(|n| n * 10);
    assert_eq!(b.split(), (Some(5), Some(60)));
}

#[test]
fn take_left_on_each_case() {
    let (t, rest) = AnyOf::<i32, &str>::new_both(1, "r").take_left().split();
    assert_eq!(t, Some(1));
    assert_eq!(rest.unwrap().split(), (None, Some("r")));

    let (t, rest) = AnyOf::<i32, &str>::new_left(1).take_left().split();
    assert_eq!(t, Some(1));
    assert!(rest.unwrap().is_neither());

    let (t, rest) = AnyOf::<i32, &str>::new_right("r").take_left().split();
    assert_eq!(t, None);
    assert_eq!(rest.unwrap().split(), (None, Some("r")));

    let (t, rest) = AnyOf::<i32, &str>::new_neither().take_left().split();
    assert_eq!(t, None);
    assert!(rest.unwrap().is_neither());
}

#[test]
fn take_left_leaves_right_side_alone() {
    let values = vec![
        AnyOf::<u8, u8>::new_neither(),
        AnyOf::new_left(1),
        AnyOf::new_right(2),
        AnyOf::new_both(3, 4),
    ];
    for v in values {
        let had_left = v.contains_left();
        let had_right = v.contains_right();
        let (taken, rest) = v.take_left().split();
        let rest = rest.unwrap();
        assert_eq!(taken.is_some(), had_left);
        assert!(!rest.contains_left());
        assert_eq!(rest.contains_right(), had_right);
    }
}

#[test]
fn take_right_on_each_case() {
    let (t, rest) = AnyOf::<i32, &str>::new_both(1, "r").take_right().split();
    assert_eq!(t, Some("r"));
    assert_eq!(rest.unwrap().split(), (Some(1), None));

    let (t, rest) = AnyOf::<i32, &str>::new_right("r").take_right().split();
    assert_eq!(t, Some("r"));
    assert!(rest.unwrap().is_neither());

    let (t, rest) = AnyOf::<i32, &str>::new_left(1).take_right().split();
    assert_eq!(t, None);
    assert_eq!(rest.unwrap().split(), (Some(1), None));

    let (t, rest) = AnyOf::<i32, &str>::new_neither().take_right().split();
    assert_eq!(t, None);
    assert!(rest.unwrap().is_neither());
}

#[test]
fn reverse_swaps_and_twice_restores() {
    let a = AnyOf::<i32, &str>::new_both(1, "x");
    assert_eq!(a.reverse().split(), (Some("x"), Some(1)));
    let values = vec![
        AnyOf::<i32, &str>::new_neither(),
        AnyOf::new_left(1),
        AnyOf::new_right("r"),
        AnyOf::new_both(2, "b"),
    ];
    for v in values {
        let before = v.split();
        let v2 = AnyOf::from(before);
        assert_eq!(v2.reverse().reverse().split(), before);
    }
    assert_eq!(AnyOf::<i32, &str>::new_left(1).reverse().split(), (None, Some(1)));
}

#[test]
fn as_ref_borrows() {
    let a = AnyOf::<String, i32>::new_both(String::from("s"), 3);
    let r = a.as_ref();
    assert_eq!(r.split(), (Some(&String::from("s")), Some(&3)));
    assert_eq!(a.split(), (Some(String::from("s")), Some(3)));
}

#[test]
fn as_mut_writes_through() {
    let mut a = AnyOf::<i32, i32>::new_left(1);
    {
        let (l, r) = a.as_mut().split();
        assert!(r.is_none());
        *l.unwrap() = 42;
    }
    assert_eq!(a.split(), (Some(42), None));
}

#[test]
fn into_inner_and_back() {
    let a = AnyOf::<i32, i32>::new_right(9);
    let inner = a.into_inner();
    assert!(matches!(inner, AnyLR::Right(9)));
    let back = inner.into_any_of();
    assert_eq!(back.split(), (None, Some(9)));
}

#[test]
fn any_lr_reverse() {
    assert!(matches!(AnyLR::<i32, &str>::Both((1, "a")).reverse(), AnyLR::Both(("a", 1))));
    assert!(matches!(AnyLR::<i32, &str>::Left(1).reverse(), AnyLR::Right(1)));
    assert!(matches!(AnyLR::<i32, &str>::Neither.reverse(), AnyLR::Neither));
}

#[test]
fn from_either_keeps_side() {
    let l = AnyOf::from(EitherOf::<i32, &str>::Left(1));
    assert!(l.contains_left());
    assert!(!l.is_both());
    assert!(!l.is_neither());
    let r = AnyOf::from(EitherOf::<i32, &str>::Right("r"));
    assert!(!r.contains_left());
    assert!(!r.is_both());
    assert!(!r.is_neither());
    assert_eq!(r.split(), (None, Some("r")));
}

#[test]
fn from_pair_and_some_of() {
    let a: AnyOf<i32, &str> = AnyOf::from((1, "x"));
    assert!(a.is_both());
    let s = AnyOf::from(SomeOf::<i32, &str>::new_right("y"));
    assert_eq!(s.split(), (None, Some("y")));
}

#[test]
fn trait_methods_on_any_of() {
    let a = AnyOf::<i32, i32>::new_both(1, 2);
    assert!(TrAnyOf::contains_left_and(&a, |x| *x == 1));
    assert!(!TrAnyOf::contains_right_and(&a, |x| *x == 1));
    assert_eq!(TrAnyOf::pick_right(a), Some(2));
    let b = AnyOf::<i32, &str>::new_left(4).into_inversed();
    assert_eq!(b.split(), (None, Some(4)));
}
