use anylr::{AnyOf, EitherOf, SomeLR, SomeOf, TrAnyOf, TrInverseLR};

#[test]
fn both_is_left_and_right() {
    let s = SomeOf::<i32, &str>::new_both(1, "x");
    assert!(s.is_left());
    assert!(s.is_right());
    assert!(s.is_both());
    let e = EitherOf::<i32, &str>::Left(1);
    assert!(e.is_left() != e.is_right());
    let e = EitherOf::<i32, &str>::Right("x");
    assert!(e.is_left() != e.is_right());
}

#[test]
fn single_sides_are_not_both() {
    let l = SomeOf::<i32, i32>::new_left(1);
    assert!(l.is_left());
    assert!(!l.is_right());
    assert!(!l.is_both());
    let r = SomeOf::<i32, i32>::new_right(2);
    assert!(!r.is_left());
    assert!(r.is_right());
    assert!(!r.is_both());
}

#[test]
fn narrowing_neither_fails_with_the_input() {
    let r = SomeOf::try_from(AnyOf::<i32, i32>::new_neither());
    let e = r.unwrap_err();
    assert!(e.is_neither());
    assert_eq!(e.split(), AnyOf::<i32, i32>::new_neither().split());
}

#[test]
fn narrowing_keeps_present_slots() {
    let s = SomeOf::try_from(AnyOf::<i32, &str>::new_both(1, "x")).unwrap();
    assert_eq!(s.split(), (Some(1), Some("x")));
    let s = SomeOf::try_from(AnyOf::<i32, &str>::new_left(1)).unwrap();
    assert_eq!(s.split(), (Some(1), None));
    let s = SomeOf::try_from(AnyOf::<i32, &str>::new_right("x")).unwrap();
    assert_eq!(s.split(), (None, Some("x")));
}

#[test]
fn some_of_map_sides() {
    let s = SomeOf::<i32, i32>::new_both(1, 2).map_left(|x| x + 10).map_right(|x| x * 3);
    assert_eq!(s.split(), (Some(11), Some(6)));
    let s = SomeOf::<i32, i32>::new_right(2).map_left(|x| x + 10);
    assert_eq!(s.split(), (None, Some(2)));
}

#[test]
fn some_of_take_left() {
    let (t, rest) = SomeOf::<i32, &str>::new_both(1, "r").take_left().split();
    assert_eq!(t, Some(1));
    assert_eq!(rest.unwrap().split(), (None, Some("r")));
    let (t, rest) = SomeOf::<i32, &str>::new_left(1).take_left().split();
    assert_eq!(t, Some(1));
    assert!(rest.is_none());
    let (t, rest) = SomeOf::<i32, &str>::new_right("r").take_left().split();
    assert_eq!(t, None);
    assert_eq!(rest.unwrap().split(), (None, Some("r")));
}

#[test]
fn some_of_take_right() {
    let (t, rest) = SomeOf::<i32, &str>::new_both(1, "r").take_right().split();
    assert_eq!(t, Some("r"));
    assert_eq!(rest.unwrap().split(), (Some(1), None));
    let (t, rest) = SomeOf::<i32, &str>::new_right("r").take_right().split();
    assert_eq!(t, Some("r"));
    assert!(rest.is_none());
    let (t, rest) = SomeOf::<i32, &str>::new_left(1).take_right().split();
    assert_eq!(t, None);
    assert_eq!(rest.unwrap().split(), (Some(1), None));
}

#[test]
fn some_of_reverse_twice() {
    let s = SomeOf::<i32, &str>::new_both(1, "x");
    assert_eq!(s.reverse().split(), (Some("x"), Some(1)));
    let s = SomeOf::<i32, &str>::new_left(1);
    assert_eq!(s.reverse().reverse().split(), (Some(1), None));
    let s = SomeOf::<i32, &str>::new_right("y").into_inversed();
    assert_eq!(s.split(), (Some("y"), None));
}

#[test]
fn some_of_borrows() {
    let mut s = SomeOf::<i32, i32>::new_both(1, 2);
    assert_eq!(s.as_ref().split(), (Some(&1), Some(&2)));
    {
        let (l, r) = s.as_mut().split();
        *l.unwrap() += 5;
        *r.unwrap() -= 5;
    }
    assert_eq!(s.split(), (Some(6), Some(-3)));
}

#[test]
fn some_of_conversions_in() {
    let s = SomeOf::from(EitherOf::<i32, &str>::Right("r"));
    assert_eq!(s.split(), (None, Some("r")));
    let s = SomeOf::from((1, "b"));
    assert!(s.is_both());
    let s = SomeOf::from(Result::<i32, &str>::Err("e"));
    assert_eq!(s.split(), (None, Some("e")));
    let s = SomeOf::from(Result::<i32, &str>::Ok(4));
    assert_eq!(s.split(), (Some(4), None));
}

#[test]
fn some_of_inner_and_trait() {
    let s = SomeOf::<i32, i32>::new_right(3);
    assert!(TrAnyOf::contains_right(&s));
    assert!(!TrAnyOf::contains_left(&s));
    assert_eq!(TrAnyOf::into_any_of(s).split(), (None, Some(3)));
    let inner = SomeOf::<i32, i32>::new_both(1, 2).into_inner();
    assert!(matches!(inner, SomeLR::Both((1, 2))));
    assert_eq!(inner.reverse().split(), (Some(2), Some(1)));
}
