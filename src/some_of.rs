use vstd::prelude::*;
use crate::abs::{borrowed, callable_on, lent, mapped_by};
use crate::any_of::AnyOf;
use crate::either::EitherOf;
use crate::abs::{TrAnyOf, TrInverseLR};
use vstd::std_specs::convert::{FromSpec, TryFromSpec};

verus! {

/// At least one value of type `L` or `R`, or both.
#[derive(Debug)]
pub enum SomeLR<L, R> {
    Left(L),
    Right(R),
    Both((L, R)),
}

impl<L, R> View for SomeLR<L, R> {
    type V = (Option<L>, Option<R>);

    /// The left slot and the right slot; never both empty.
    open spec fn view(&self) -> (Option<L>, Option<R>) {
        match self {
            SomeLR::Left(l) => (Some(*l), None),
            SomeLR::Right(r) => (None, Some(*r)),
            SomeLR::Both((l, r)) => (Some(*l), Some(*r)),
        }
    }
}

impl<L, R> SomeLR<L, R> {
    /// The optional left value and the optional right value.
    pub fn split(self) -> (r: (Option<L>, Option<R>))
        ensures
            r == self@,
    {
        match self {
            SomeLR::Left(l) => (Some(l), None),
            SomeLR::Right(r) => (None, Some(r)),
            SomeLR::Both((l, r)) => (Some(l), Some(r)),
        }
    }

    /// Swaps the two sides.
    pub fn reverse(self) -> (r: SomeLR<R, L>)
        ensures
            r@ == (self@.1, self@.0),
    {
        match self {
            SomeLR::Left(l) => SomeLR::Right(l),
            SomeLR::Right(r) => SomeLR::Left(r),
            SomeLR::Both((l, r)) => SomeLR::Both((r, l)),
        }
    }

    /// Applies `f` to the left value, if there is one; the right slot is kept.
    pub(crate) fn map_left<F, T>(self, f: F) -> (r: SomeLR<T, R>)
        where
            F: FnOnce(L) -> T,
        requires
            callable_on(f, self@.0),
        ensures
            mapped_by(f, self@.0, r@.0),
            r@.1 == self@.1,
    {
        match self {
            SomeLR::Left(l) => SomeLR::Left(f(l)),
            SomeLR::Right(r) => SomeLR::Right(r),
            SomeLR::Both((l, r)) => SomeLR::Both((f(l), r)),
        }
    }

    /// Applies `f` to the right value, if there is one; the left slot is kept.
    pub(crate) fn map_right<F, T>(self, f: F) -> (r: SomeLR<L, T>)
        where
            F: FnOnce(R) -> T,
        requires
            callable_on(f, self@.1),
        ensures
            mapped_by(f, self@.1, r@.1),
            r@.0 == self@.0,
    {
        match self {
            SomeLR::Left(l) => SomeLR::Left(l),
            SomeLR::Right(r) => SomeLR::Right(f(r)),
            SomeLR::Both((l, r)) => SomeLR::Both((l, f(r))),
        }
    }

    /// The variant is `Left` or `Both`.
    pub(crate) fn is_left(&self) -> (r: bool)
        ensures
            r == self@.0 is Some,
    {
        match self {
            SomeLR::Left(_) => true,
            SomeLR::Both(_) => true,
            _ => false,
        }
    }

    /// The variant is `Right` or `Both`.
    pub(crate) fn is_right(&self) -> (r: bool)
        ensures
            r == self@.1 is Some,
    {
        match self {
            SomeLR::Right(_) => true,
            SomeLR::Both(_) => true,
            _ => false,
        }
    }

    /// The variant is just `Both`.
    pub(crate) fn is_both(&self) -> (r: bool)
        ensures
            r == (self@.0 is Some && self@.1 is Some),
    {
        matches!(self, SomeLR::Both(_))
    }
}

impl<L: Clone, R: Clone> Clone for SomeLR<L, R> {
    fn clone(&self) -> (r: Self) {
        match self {
            SomeLR::Left(l) => SomeLR::Left(l.clone()),
            SomeLR::Right(r) => SomeLR::Right(r.clone()),
            SomeLR::Both((l, r)) => SomeLR::Both((l.clone(), r.clone())),
        }
    }
}

impl<L: Copy, R: Copy> Copy for SomeLR<L, R> {}

/// A wrapper around `SomeLR<L, R>`, so that the inclusive reading of its
/// queries stays plain: a `Both` value answers yes to `is_left` and to
/// `is_right` alike.
#[derive(Debug)]
pub struct SomeOf<L, R>(SomeLR<L, R>);

impl<L, R> View for SomeOf<L, R> {
    type V = (Option<L>, Option<R>);

    /// The left slot and the right slot; never both empty.
    closed spec fn view(&self) -> (Option<L>, Option<R>) {
        self.0@
    }
}

impl<L, R> SomeOf<L, R> {
    /// At least one slot of a `SomeOf` holds a value.
    pub proof fn lemma_not_empty(&self)
        ensures
            self@.0 is Some || self@.1 is Some,
    {
    }

    /// A `SomeOf` is determined by its two slots.
    pub proof fn lemma_view_eq(a: Self, b: Self)
        requires
            a@ == b@,
        ensures
            a == b,
    {
    }

    /// Wraps a value of `L`.
    pub fn new_left(l: L) -> (r: Self)
        ensures
            r@ == (Some(l), None::<R>),
    {
        SomeOf(SomeLR::Left(l))
    }

    /// Wraps a value of `R`.
    pub fn new_right(r: R) -> (s: Self)
        ensures
            s@ == (None::<L>, Some(r)),
    {
        SomeOf(SomeLR::Right(r))
    }

    /// Wraps a value of `L` and a value of `R`.
    pub fn new_both(l: L, r: R) -> (s: Self)
        ensures
            s@ == (Some(l), Some(r)),
    {
        SomeOf(SomeLR::Both((l, r)))
    }

    /// The optional left value and the optional right value.
    pub fn split(self) -> (r: (Option<L>, Option<R>))
        ensures
            r == self@,
    {
        SomeLR::split(self.0)
    }

    /// Applies `f` to the left value, if there is one; the right slot is kept.
    pub fn map_left<F, T>(self, f: F) -> (r: SomeOf<T, R>)
        where
            F: FnOnce(L) -> T,
        requires
            callable_on(f, self@.0),
        ensures
            mapped_by(f, self@.0, r@.0),
            r@.1 == self@.1,
    {
        SomeOf(self.0.map_left(f))
    }

    /// Applies `f` to the right value, if there is one; the left slot is kept.
    pub fn map_right<F, T>(self, f: F) -> (r: SomeOf<L, T>)
        where
            F: FnOnce(R) -> T,
        requires
            callable_on(f, self@.1),
        ensures
            mapped_by(f, self@.1, r@.1),
            r@.0 == self@.0,
    {
        SomeOf(self.0.map_right(f))
    }

    /// Takes the left value out: the left slot of the result holds it, if there
    /// was one, and the right slot holds the right value alone, if there was one.
    pub fn take_left(self) -> (r: SomeOf<L, Self>)
        ensures
            r@.0 == self@.0,
            r@.1 is Some <==> self@.1 is Some,
            r@.1 is Some ==> r@.1->0@ == (None::<L>, self@.1),
    {
        match self.0 {
            SomeLR::Left(l) => SomeOf::new_left(l),
            SomeLR::Right(r) => SomeOf::new_right(SomeOf::new_right(r)),
            SomeLR::Both((l, r)) => SomeOf::new_both(l, SomeOf::new_right(r)),
        }
    }

    /// Takes the right value out: the left slot of the result holds it, if
    /// there was one, and the right slot holds the left value alone, if there
    /// was one.
    pub fn take_right(self) -> (r: SomeOf<R, Self>)
        ensures
            r@.0 == self@.1,
            r@.1 is Some <==> self@.0 is Some,
            r@.1 is Some ==> r@.1->0@ == (self@.0, None::<R>),
    {
        match self.0 {
            SomeLR::Left(l) => SomeOf::new_right(SomeOf::new_left(l)),
            SomeLR::Right(r) => SomeOf::new_left(r),
            SomeLR::Both((l, r)) => SomeOf::new_both(r, SomeOf::new_left(l)),
        }
    }

    /// Borrows the values held, keeping the shape.
    pub fn as_ref(&self) -> (r: SomeOf<&L, &R>)
        ensures
            borrowed(r@.0, self@.0),
            borrowed(r@.1, self@.1),
    {
        match &self.0 {
            SomeLR::Left(l) => SomeOf::new_left(l),
            SomeLR::Right(r) => SomeOf::new_right(r),
            SomeLR::Both((l, r)) => SomeOf::new_both(l, r),
        }
    }

    /// Borrows the values held mutably, keeping the shape; what is written
    /// through the result ends up in `self`.
    pub fn as_mut(&mut self) -> (r: SomeOf<&mut L, &mut R>)
        ensures
            lent(r@.0, old(self)@.0),
            lent(r@.1, old(self)@.1),
            final(self)@.0 == (if r@.0 is Some { Some(*final(r@.0->0)) } else { None }),
            final(self)@.1 == (if r@.1 is Some { Some(*final(r@.1->0)) } else { None }),
    {
        match &mut self.0 {
            SomeLR::Left(l) => SomeOf::new_left(l),
            SomeLR::Right(r) => SomeOf::new_right(r),
            SomeLR::Both((l, r)) => SomeOf::new_both(l, r),
        }
    }

    /// Swaps the two sides.
    pub fn reverse(self) -> (r: SomeOf<R, L>)
        ensures
            r@ == (self@.1, self@.0),
    {
        SomeOf(self.0.reverse())
    }

    /// The variant is `Left` or `Both`.
    pub fn is_left(&self) -> (r: bool)
        ensures
            r == self@.0 is Some,
    {
        self.0.is_left()
    }

    /// The variant is `Right` or `Both`.
    pub fn is_right(&self) -> (r: bool)
        ensures
            r == self@.1 is Some,
    {
        self.0.is_right()
    }

    /// The variant is just `Both`.
    pub fn is_both(&self) -> (r: bool)
        ensures
            r == (self@.0 is Some && self@.1 is Some),
    {
        self.0.is_both()
    }

    /// The same slots as an `AnyOf`.
    fn widen(self) -> (r: AnyOf<L, R>)
        ensures
            r@ == self@,
    {
        match self.0 {
            SomeLR::Left(l) => AnyOf::new_left(l),
            SomeLR::Right(r) => AnyOf::new_right(r),
            SomeLR::Both((l, r)) => AnyOf::new_both(l, r),
        }
    }

    /// The three-way enum inside.
    pub fn into_inner(self) -> (r: SomeLR<L, R>)
        ensures
            r@ == self@,
    {
        self.0
    }
}

impl<L: Clone, R: Clone> Clone for SomeOf<L, R> {
    fn clone(&self) -> (r: Self) {
        SomeOf(self.0.clone())
    }
}

impl<L: Copy, R: Copy> Copy for SomeOf<L, R> {}

impl<L, R> From<EitherOf<L, R>> for SomeOf<L, R> {
    /// A left value goes left and a right value goes right.
    fn from(value: EitherOf<L, R>) -> (r: Self)
        ensures
            r@ == value@,
    {
        match value {
            EitherOf::Left(x) => SomeOf(SomeLR::Left(x)),
            EitherOf::Right(x) => SomeOf(SomeLR::Right(x)),
        }
    }
}

impl<L, R> vstd::std_specs::convert::FromSpecImpl<EitherOf<L, R>> for SomeOf<L, R> {
    open spec fn obeys_from_spec() -> bool {
        true
    }

    closed spec fn from_spec(value: EitherOf<L, R>) -> Self {
        match value {
            EitherOf::Left(x) => SomeOf(SomeLR::Left(x)),
            EitherOf::Right(x) => SomeOf(SomeLR::Right(x)),
        }
    }
}

impl<L, R> From<(L, R)> for SomeOf<L, R> {
    /// Both values are kept.
    fn from(value: (L, R)) -> (r: Self)
        ensures
            r@ == (Some(value.0), Some(value.1)),
    {
        SomeOf(SomeLR::Both(value))
    }
}

impl<L, R> vstd::std_specs::convert::FromSpecImpl<(L, R)> for SomeOf<L, R> {
    open spec fn obeys_from_spec() -> bool {
        true
    }

    closed spec fn from_spec(value: (L, R)) -> Self {
        SomeOf(SomeLR::Both(value))
    }
}

impl<T, E> From<Result<T, E>> for SomeOf<T, E> {
    /// A success goes left and a failure goes right.
    fn from(value: Result<T, E>) -> (r: Self)
        ensures
            r@ == (match value {
                Ok(t) => (Some(t), None),
                Err(e) => (None, Some(e)),
            }),
    {
        match value {
            Ok(t) => SomeOf(SomeLR::Left(t)),
            Err(e) => SomeOf(SomeLR::Right(e)),
        }
    }
}

impl<T, E> vstd::std_specs::convert::FromSpecImpl<Result<T, E>> for SomeOf<T, E> {
    open spec fn obeys_from_spec() -> bool {
        true
    }

    closed spec fn from_spec(value: Result<T, E>) -> Self {
        match value {
            Ok(t) => SomeOf(SomeLR::Left(t)),
            Err(e) => SomeOf(SomeLR::Right(e)),
        }
    }
}

impl<L, R> TryFrom<AnyOf<L, R>> for SomeOf<L, R> {
    type Error = AnyOf<L, R>;

    /// Fails exactly on a value that holds neither side, and hands that value
    /// back as the error; any other value keeps its slots.
    fn try_from(value: AnyOf<L, R>) -> (r: Result<Self, AnyOf<L, R>>)
        ensures
            r is Err <==> (value@.0 is None && value@.1 is None),
            r matches Ok(s) ==> s@ == value@,
            r matches Err(e) ==> e == value,
    {
        let ghost original = value;
        match value.split() {
            (Some(l), Some(r)) => Ok(SomeOf(SomeLR::Both((l, r)))),
            (Some(l), None) => Ok(SomeOf(SomeLR::Left(l))),
            (None, Some(r)) => Ok(SomeOf(SomeLR::Right(r))),
            (None, None) => {
                let e = AnyOf::new_neither();
                proof {
                    AnyOf::lemma_view_eq(e, original);
                }
                Err(e)
            },
        }
    }
}

impl<L, R> vstd::std_specs::convert::TryFromSpecImpl<AnyOf<L, R>> for SomeOf<L, R> {
    open spec fn obeys_try_from_spec() -> bool {
        true
    }

    closed spec fn try_from_spec(value: AnyOf<L, R>) -> Result<Self, AnyOf<L, R>> {
        match value@ {
            (Some(l), Some(r)) => Ok(SomeOf(SomeLR::Both((l, r)))),
            (Some(l), None) => Ok(SomeOf(SomeLR::Left(l))),
            (None, Some(r)) => Ok(SomeOf(SomeLR::Right(r))),
            (None, None) => Err(value),
        }
    }
}

impl<L, R> TrInverseLR for SomeOf<L, R> {
    type Inversed = SomeOf<R, L>;

    fn into_inversed(self) -> (r: SomeOf<R, L>) {
        SomeOf::reverse(self)
    }
}

impl<L, R> TrAnyOf for SomeOf<L, R> {
    type Lt = L;
    type Rt = R;

    open spec fn slots(&self) -> (Option<L>, Option<R>) {
        self@
    }

    fn into_any_of(self) -> (r: AnyOf<L, R>) {
        self.widen()
    }

    fn map_left<F, U>(self, f: F) -> (r: AnyOf<U, R>)
        where
            F: FnOnce(L) -> U,
    {
        SomeOf::map_left(self, f).widen()
    }

    fn map_right<F, U>(self, f: F) -> (r: AnyOf<L, U>)
        where
            F: FnOnce(R) -> U,
    {
        SomeOf::map_right(self, f).widen()
    }

    fn take_left(self) -> (r: SomeOf<L, Self>) {
        SomeOf::take_left(self)
    }

    fn take_right(self) -> (r: SomeOf<R, Self>) {
        SomeOf::take_right(self)
    }

    fn as_ref<'a>(&'a self) -> (r: AnyOf<&'a L, &'a R>)
        where
            L: 'a,
            R: 'a,
    {
        SomeOf::as_ref(self).widen()
    }

    fn as_mut<'a>(&'a mut self) -> (r: AnyOf<&'a mut L, &'a mut R>)
        where
            L: 'a,
            R: 'a,
    {
        SomeOf::as_mut(self).widen()
    }
}

/// A `SomeOf` made from a pair holds a left value and a right value, so
/// `is_left`, `is_right` and `is_both` all answer yes for it; an `EitherOf`
/// holds exactly one side, so exactly one of its `is_left` and `is_right`
/// answers yes.
pub proof fn lemma_inclusive_sides<L, R>(l: L, r: R, e: EitherOf<L, R>)
    ensures
        ({
            let s = <SomeOf<L, R> as FromSpec<(L, R)>>::from_spec((l, r));
            &&& s@.0 is Some
            &&& s@.1 is Some
        }),
        (e is Left) != (e is Right),
{
}

/// Widening a `SomeOf` to an `AnyOf` loses nothing: narrowing the result
/// back succeeds and gives the same value.
pub proof fn lemma_widen_then_narrow<L, R>(s: SomeOf<L, R>)
    ensures
        <SomeOf<L, R> as TryFromSpec<AnyOf<L, R>>>::try_from_spec(
            <AnyOf<L, R> as FromSpec<SomeOf<L, R>>>::from_spec(s),
        ) == Ok::<SomeOf<L, R>, AnyOf<L, R>>(s),
{
    crate::any_of::lemma_from_some_of(s);
}

/// Reversing a `SomeOf` twice gives back the value it started from.
pub proof fn lemma_reverse_twice<L, R>(v: SomeOf<L, R>, once: SomeOf<R, L>, twice: SomeOf<L, R>)
    requires
        once@ == (v@.1, v@.0),
        twice@ == (once@.1, once@.0),
    ensures
        twice == v,
{
    SomeOf::lemma_view_eq(twice, v);
}

} // verus!
