use anylr::{BothOf, TrAnyOf, TrInverseLR};

#[test]
fn option_is_left_only() {
    let a = TrAnyOf::into_any_of(Some(3));
    assert_eq!(a.split(), (Some(3), None));
    let a = TrAnyOf::into_any_of(Option::<i32>::None);
    assert!(a.is_neither());
    assert!(TrAnyOf::contains_left(&Some(1)));
    assert!(!TrAnyOf::contains_right(&Some(1)));
}

#[test]
fn option_map_right_changes_only_the_type() {
    let a = TrAnyOf::map_right(Some(3), |_| 0u8);
    assert_eq!(a.split(), (Some(3), None));
    let b = TrAnyOf::map_left(Some(3), |x| x * 2);
    assert_eq!(b.split(), (Some(6), None));
}

#[test]
fn option_take_keeps_the_value() {
    let (t, rest) = TrAnyOf::take_right(Some(3)).split();
    assert!(t.is_none());
    assert_eq!(rest, Some(Some(3)));
    let (t, rest) = TrAnyOf::take_left(Some(3)).split();
    assert_eq!(t, Some(3));
    assert!(rest.is_none());
    let (t, rest) = TrAnyOf::take_left(Option::<i32>::None).split();
    assert_eq!(t, None);
    assert_eq!(rest, Some(None));
}

#[test]
fn option_borrows() {
    let mut o = Some(1);
    {
        let (l, _) = TrAnyOf::as_mut(&mut o).split();
        *l.unwrap() = 9;
    }
    assert_eq!(o, Some(9));
    assert_eq!(TrAnyOf::as_ref(&o).split().0, Some(&9));
}

#[test]
fn result_is_either_shaped() {
    let ok: Result<i32, &str> = Ok(1);
    let err: Result<i32, &str> = Err("e");
    assert_eq!(TrAnyOf::into_any_of(ok).split(), (Some(1), None));
    assert_eq!(TrAnyOf::into_any_of(err).split(), (None, Some("e")));
    assert_eq!(TrAnyOf::map_right(err, |e| e.len()).split(), (None, Some(1)));
    let (t, rest) = TrAnyOf::take_right(ok).split();
    assert_eq!(t, None);
    assert_eq!(rest, Some(Ok(1)));
    let (t, rest) = TrAnyOf::take_right(err).split();
    assert_eq!(t, Some("e"));
    assert!(rest.is_none());
    assert!(TrAnyOf::contains_right_and(&err, |e| *e == "e"));
    assert_eq!(TrAnyOf::pick_left(ok), Some(1));
}

#[test]
fn pair_holds_both() {
    let p: BothOf<i32, &str> = (1, "x");
    assert!(TrAnyOf::into_any_of(p).is_both());
    assert_eq!(TrAnyOf::map_left(p, |x| x + 1).split(), (Some(2), Some("x")));
    assert_eq!(TrAnyOf::map_right(p, |s| s.len()).split(), (Some(1), Some(1)));
    assert_eq!(TrAnyOf::take_left(p).split(), (Some(1), None));
    assert_eq!(TrAnyOf::take_right(p).split(), (Some("x"), None));
    assert_eq!(p.into_inversed(), ("x", 1));
    assert_eq!(p.into_inversed().into_inversed(), p);
}

#[test]
fn pair_borrows() {
    let mut p: BothOf<i32, i32> = (1, 2);
    {
        let (l, r) = TrAnyOf::as_mut(&mut p).split();
        *l.unwrap() = 10;
        *r.unwrap() = 20;
    }
    assert_eq!(p, (10, 20));
    assert_eq!(TrAnyOf::as_ref(&p).split(), (Some(&10), Some(&20)));
}

