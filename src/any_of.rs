use vstd::prelude::*;
use crate::abs::{borrowed, callable_on, lent, mapped_by};
use crate::some_of::SomeOf;
use crate::either::EitherOf;
use crate::both::BothOf;
use crate::abs::{TrAnyOf, TrInverseLR};
use vstd::std_specs::convert::FromSpec;

verus! {

/// The four ways in which a left value and a right value may be present.
#[derive(Debug)]
pub enum AnyLR<L, R> {
    Neither,
    Left(L),
    Right(R),
    Both((L, R)),
}

impl<L, R> View for AnyLR<L, R> {
    type V = (Option<L>, Option<R>);

    /// The left slot and the right slot.
    open spec fn view(&self) -> (Option<L>, Option<R>) {
        match self {
            AnyLR::Neither => (None, None),
            AnyLR::Left(l) => (Some(*l), None),
            AnyLR::Right(r) => (None, Some(*r)),
            AnyLR::Both((l, r)) => (Some(*l), Some(*r)),
        }
    }
}

impl<L, R> AnyLR<L, R> {
    /// Wraps this value in an `AnyOf`.
    pub fn into_any_of(self) -> (r: AnyOf<L, R>)
        ensures
            r@ == self@,
    {
        AnyOf(self)
    }

    /// Swaps the two sides.
    pub fn reverse(self) -> (r: AnyLR<R, L>)
        ensures
            r@ == (self@.1, self@.0),
    {
        match self {
            AnyLR::Neither => AnyLR::Neither,
            AnyLR::Left(x) => AnyLR::Right(x),
            AnyLR::Right(x) => AnyLR::Left(x),
            AnyLR::Both((l, r)) => AnyLR::Both((r, l)),
        }
    }

    /// Applies `f` to the left value, if there is one; the right slot is kept.
    pub(crate) fn map_left<F, U>(self, f: F) -> (r: AnyLR<U, R>)
        where
            F: FnOnce(L) -> U,
        requires
            callable_on(f, self@.0),
        ensures
            mapped_by(f, self@.0, r@.0),
            r@.1 == self@.1,
    {
        match self {
            AnyLR::Neither => AnyLR::Neither,
            AnyLR::Left(l) => AnyLR::Left(f(l)),
            AnyLR::Right(r) => AnyLR::Right(r),
            AnyLR::Both((l, r)) => AnyLR::Both((f(l), r)),
        }
    }

    /// Applies `f` to the right value, if there is one; the left slot is kept.
    pub(crate) fn map_right<F, U>(self, f: F) -> (r: AnyLR<L, U>)
        where
            F: FnOnce(R) -> U,
        requires
            callable_on(f, self@.1),
        ensures
            mapped_by(f, self@.1, r@.1),
            r@.0 == self@.0,
    {
        match self {
            AnyLR::Neither => AnyLR::Neither,
            AnyLR::Left(l) => AnyLR::Left(l),
            AnyLR::Right(r) => AnyLR::Right(f(r)),
            AnyLR::Both((l, r)) => AnyLR::Both((l, f(r))),
        }
    }
}

impl<L: Clone, R: Clone> Clone for AnyLR<L, R> {
    fn clone(&self) -> (r: Self) {
        match self {
            AnyLR::Neither => AnyLR::Neither,
            AnyLR::Left(l) => AnyLR::Left(l.clone()),
            AnyLR::Right(r) => AnyLR::Right(r.clone()),
            AnyLR::Both((l, r)) => AnyLR::Both((l.clone(), r.clone())),
        }
    }
}

impl<L: Copy, R: Copy> Copy for AnyLR<L, R> {}

/// Zero or one value of `L` together with zero or one value of `R`.
#[derive(Debug)]
pub struct AnyOf<L, R>(AnyLR<L, R>);

impl<L, R> View for AnyOf<L, R> {
    type V = (Option<L>, Option<R>);

    /// The left slot and the right slot.
    closed spec fn view(&self) -> (Option<L>, Option<R>) {
        self.0@
    }
}

impl<L, R> AnyOf<L, R> {
    /// An `AnyOf` is determined by its two slots.
    pub proof fn lemma_view_eq(a: Self, b: Self)
        requires
            a@ == b@,
        ensures
            a == b,
    {
    }

    /// Wraps a value of `L`.
    pub fn new_left(l: L) -> (r: Self)
        ensures
            r@ == (Some(l), None::<R>),
    {
        AnyOf(AnyLR::Left(l))
    }

    /// Wraps a value of `R`.
    pub fn new_right(r: R) -> (a: Self)
        ensures
            a@ == (None::<L>, Some(r)),
    {
        AnyOf(AnyLR::Right(r))
    }

    /// Wraps a value of `L` and a value of `R`.
    pub fn new_both(l: L, r: R) -> (a: Self)
        ensures
            a@ == (Some(l), Some(r)),
    {
        AnyOf(AnyLR::Both((l, r)))
    }

    /// A value that holds neither side.
    pub fn new_neither() -> (a: Self)
        ensures
            a@ == (None::<L>, None::<R>),
    {
        AnyOf(AnyLR::Neither)
    }

    /// The optional left value and the optional right value.
    pub fn split(self) -> (r: (Option<L>, Option<R>))
        ensures
            r == self@,
    {
        match self.0 {
            AnyLR::Neither => (None, None),
            AnyLR::Left(l) => (Some(l), None),
            AnyLR::Right(r) => (None, Some(r)),
            AnyLR::Both((l, r)) => (Some(l), Some(r)),
        }
    }

    /// Applies `f` to the left value, if there is one; the right slot is kept.
    pub fn map_left<F, U>(self, f: F) -> (r: AnyOf<U, R>)
        where
            F: FnOnce(L) -> U,
        requires
            callable_on(f, self@.0),
        ensures
            mapped_by(f, self@.0, r@.0),
            r@.1 == self@.1,
    {
        AnyOf(self.0.map_left(f))
    }

    /// Applies `f` to the right value, if there is one; the left slot is kept.
    pub fn map_right<F, U>(self, f: F) -> (r: AnyOf<L, U>)
        where
            F: FnOnce(R) -> U,
        requires
            callable_on(f, self@.1),
        ensures
            mapped_by(f, self@.1, r@.1),
            r@.0 == self@.0,
    {
        AnyOf(self.0.map_right(f))
    }

    /// Takes the left value out: the left slot of the result holds it, if there
    /// was one, and the right slot always holds what remains, which is the right
    /// value alone.
    pub fn take_left(self) -> (r: SomeOf<L, Self>)
        ensures
            r@.0 == self@.0,
            r@.1 is Some,
            r@.1->0@ == (None::<L>, self@.1),
    {
        match self.0 {
            AnyLR::Neither => SomeOf::new_right(AnyOf::new_neither()),
            AnyLR::Left(l) => SomeOf::new_both(l, AnyOf::new_neither()),
            AnyLR::Right(r) => SomeOf::new_right(AnyOf::new_right(r)),
            AnyLR::Both((l, r)) => SomeOf::new_both(l, AnyOf::new_right(r)),
        }
    }

    /// Takes the right value out: the left slot of the result holds it, if
    /// there was one, and the right slot always holds what remains, which is
    /// the left value alone.
    pub fn take_right(self) -> (r: SomeOf<R, Self>)
        ensures
            r@.0 == self@.1,
            r@.1 is Some,
            r@.1->0@ == (self@.0, None::<R>),
    {
        match self.0 {
            AnyLR::Neither => SomeOf::new_right(AnyOf::new_neither()),
            AnyLR::Left(l) => SomeOf::new_right(AnyOf::new_left(l)),
            AnyLR::Right(r) => SomeOf::new_both(r, AnyOf::new_neither()),
            AnyLR::Both((l, r)) => SomeOf::new_both(r, AnyOf::new_left(l)),
        }
    }

    /// Swaps the two sides.
    pub fn reverse(self) -> (r: AnyOf<R, L>)
        ensures
            r@ == (self@.1, self@.0),
    {
        AnyOf(self.0.reverse())
    }

    /// Borrows the values held, keeping the shape.
    pub fn as_ref(&self) -> (r: AnyOf<&L, &R>)
        ensures
            borrowed(r@.0, self@.0),
            borrowed(r@.1, self@.1),
    {
        match &self.0 {
            AnyLR::Neither => AnyOf::new_neither(),
            AnyLR::Left(l) => AnyOf::new_left(l),
            AnyLR::Right(r) => AnyOf::new_right(r),
            AnyLR::Both((l, r)) => AnyOf::new_both(l, r),
        }
    }

    /// Borrows the values held mutably, keeping the shape; what is written
    /// through the result ends up in `self`.
    pub fn as_mut(&mut self) -> (r: AnyOf<&mut L, &mut R>)
        ensures
            lent(r@.0, old(self)@.0),
            lent(r@.1, old(self)@.1),
            final(self)@.0 == (if r@.0 is Some { Some(*final(r@.0->0)) } else { None }),
            final(self)@.1 == (if r@.1 is Some { Some(*final(r@.1->0)) } else { None }),
    {
        match &mut self.0 {
            AnyLR::Neither => AnyOf::new_neither(),
            AnyLR::Left(l) => AnyOf::new_left(l),
            AnyLR::Right(r) => AnyOf::new_right(r),
            AnyLR::Both((l, r)) => AnyOf::new_both(l, r),
        }
    }

    /// There is a left value.
    pub fn contains_left(&self) -> (r: bool)
        ensures
            r == self@.0 is Some,
    {
        match self.0 {
            AnyLR::Left(_) => true,
            AnyLR::Both(_) => true,
            _ => false,
        }
    }

    /// There is a right value.
    pub fn contains_right(&self) -> (r: bool)
        ensures
            r == self@.1 is Some,
    {
        match self.0 {
            AnyLR::Right(_) => true,
            AnyLR::Both(_) => true,
            _ => false,
        }
    }

    /// There is a left value and a right value.
    pub fn is_both(&self) -> (r: bool)
        ensures
            r == (self@.0 is Some && self@.1 is Some),
    {
        matches!(self.0, AnyLR::Both(_))
    }

    /// There is no value at all.
    pub fn is_neither(&self) -> (r: bool)
        ensures
            r == (self@.0 is None && self@.1 is None),
    {
        matches!(self.0, AnyLR::Neither)
    }

    /// The four-way enum inside.
    pub fn into_inner(self) -> (r: AnyLR<L, R>)
        ensures
            r@ == self@,
    {
        self.0
    }
}

impl<L: Clone, R: Clone> Clone for AnyOf<L, R> {
    fn clone(&self) -> (r: Self) {
        AnyOf(self.0.clone())
    }
}

impl<L: Copy, R: Copy> Copy for AnyOf<L, R> {}

impl<L, R> Default for AnyOf<L, R> {
    fn default() -> (r: Self)
        ensures
            r@ == (None::<L>, None::<R>),
    {
        AnyOf::new_neither()
    }
}

impl<L, R> From<EitherOf<L, R>> for AnyOf<L, R> {
    /// A left value goes left and a right value goes right.
    fn from(value: EitherOf<L, R>) -> (r: Self)
        ensures
            r@ == value@,
    {
        match value {
            EitherOf::Left(l) => AnyOf(AnyLR::Left(l)),
            EitherOf::Right(r) => AnyOf(AnyLR::Right(r)),
        }
    }
}

impl<L, R> vstd::std_specs::convert::FromSpecImpl<EitherOf<L, R>> for AnyOf<L, R> {
    open spec fn obeys_from_spec() -> bool {
        true
    }

    closed spec fn from_spec(value: EitherOf<L, R>) -> Self {
        match value {
            EitherOf::Left(l) => AnyOf(AnyLR::Left(l)),
            EitherOf::Right(r) => AnyOf(AnyLR::Right(r)),
        }
    }
}

impl<L, R> From<BothOf<L, R>> for AnyOf<L, R> {
    /// Both values are kept.
    fn from(value: BothOf<L, R>) -> (r: Self)
        ensures
            r@ == (Some(value.0), Some(value.1)),
    {
        AnyOf(AnyLR::Both(value))
    }
}

impl<L, R> vstd::std_specs::convert::FromSpecImpl<BothOf<L, R>> for AnyOf<L, R> {
    open spec fn obeys_from_spec() -> bool {
        true
    }

    closed spec fn from_spec(value: BothOf<L, R>) -> Self {
        AnyOf(AnyLR::Both(value))
    }
}

impl<L, R> From<SomeOf<L, R>> for AnyOf<L, R> {
    /// Each value keeps its side.
    fn from(value: SomeOf<L, R>) -> (r: Self)
        ensures
            r@ == value@,
    {
        match value.split() {
            (Some(l), Some(r)) => AnyOf(AnyLR::Both((l, r))),
            (Some(l), None) => AnyOf(AnyLR::Left(l)),
            (None, Some(r)) => AnyOf(AnyLR::Right(r)),
            (None, None) => AnyOf(AnyLR::Neither),
        }
    }
}

impl<L, R> vstd::std_specs::convert::FromSpecImpl<SomeOf<L, R>> for AnyOf<L, R> {
    open spec fn obeys_from_spec() -> bool {
        true
    }

    closed spec fn from_spec(value: SomeOf<L, R>) -> Self {
        match value@ {
            (Some(l), Some(r)) => AnyOf(AnyLR::Both((l, r))),
            (Some(l), None) => AnyOf(AnyLR::Left(l)),
            (None, Some(r)) => AnyOf(AnyLR::Right(r)),
            (None, None) => AnyOf(AnyLR::Neither),
        }
    }
}

impl<L, R> From<(Option<L>, Option<R>)> for AnyOf<L, R> {
    /// The two slots become the two sides: the inverse of `split`.
    fn from(value: (Option<L>, Option<R>)) -> (r: Self)
        ensures
            r@ == value,
    {
        match value {
            (Some(l), Some(r)) => AnyOf(AnyLR::Both((l, r))),
            (Some(l), None) => AnyOf(AnyLR::Left(l)),
            (None, Some(r)) => AnyOf(AnyLR::Right(r)),
            (None, None) => AnyOf(AnyLR::Neither),
        }
    }
}

impl<L, R> vstd::std_specs::convert::FromSpecImpl<(Option<L>, Option<R>)> for AnyOf<L, R> {
    open spec fn obeys_from_spec() -> bool {
        true
    }

    closed spec fn from_spec(value: (Option<L>, Option<R>)) -> Self {
        match value {
            (Some(l), Some(r)) => AnyOf(AnyLR::Both((l, r))),
            (Some(l), None) => AnyOf(AnyLR::Left(l)),
            (None, Some(r)) => AnyOf(AnyLR::Right(r)),
            (None, None) => AnyOf(AnyLR::Neither),
        }
    }
}

impl<L, R> TrInverseLR for AnyOf<L, R> {
    type Inversed = AnyOf<R, L>;

    fn into_inversed(self) -> (r: AnyOf<R, L>) {
        AnyOf::reverse(self)
    }
}

impl<L, R> TrAnyOf for AnyOf<L, R> {
    type Lt = L;
    type Rt = R;

    open spec fn slots(&self) -> (Option<L>, Option<R>) {
        self@
    }

    fn into_any_of(self) -> (r: AnyOf<L, R>) {
        self
    }

    fn map_left<F, U>(self, f: F) -> (r: AnyOf<U, R>)
        where
            F: FnOnce(L) -> U,
    {
        AnyOf::map_left(self, f)
    }

    fn map_right<F, U>(self, f: F) -> (r: AnyOf<L, U>)
        where
            F: FnOnce(R) -> U,
    {
        AnyOf::map_right(self, f)
    }

    fn take_left(self) -> (r: SomeOf<L, Self>) {
        AnyOf::take_left(self)
    }

    fn take_right(self) -> (r: SomeOf<R, Self>) {
        AnyOf::take_right(self)
    }

    fn as_ref<'a>(&'a self) -> (r: AnyOf<&'a L, &'a R>)
        where
            L: 'a,
            R: 'a,
    {
        AnyOf::as_ref(self)
    }

    fn as_mut<'a>(&'a mut self) -> (r: AnyOf<&'a mut L, &'a mut R>)
        where
            L: 'a,
            R: 'a,
    {
        AnyOf::as_mut(self)
    }
}

/// Splitting the `AnyOf` built from a pair of optional values gives that pair
/// back, and building one from the slots of a value gives that value back: the
/// pairs and the values correspond one to one.
pub proof fn lemma_pair_round_trip<L, R>(a: Option<L>, b: Option<R>, v: AnyOf<L, R>)
    ensures
        <AnyOf<L, R> as FromSpec<(Option<L>, Option<R>)>>::from_spec((a, b))@ == (a, b),
        <AnyOf<L, R> as FromSpec<(Option<L>, Option<R>)>>::from_spec(v@) == v,
{
}

/// An `AnyOf` made from an `EitherOf` has a left value exactly when the
/// `EitherOf` is a left one, and never holds both sides or neither.
pub proof fn lemma_from_either<L, R>(e: EitherOf<L, R>)
    ensures
        ({
            let a = <AnyOf<L, R> as FromSpec<EitherOf<L, R>>>::from_spec(e);
            &&& a@.0 is Some <==> e is Left
            &&& !(a@.0 is Some && a@.1 is Some)
            &&& !(a@.0 is None && a@.1 is None)
        }),
{
}

/// An `AnyOf` made from a `SomeOf` holds the same slots.
pub proof fn lemma_from_some_of<L, R>(s: SomeOf<L, R>)
    ensures
        <AnyOf<L, R> as FromSpec<SomeOf<L, R>>>::from_spec(s)@ == s@,
{
}

/// Reversing an `AnyOf` twice gives back the value it started from.
pub proof fn lemma_reverse_twice<L, R>(v: AnyOf<L, R>, once: AnyOf<R, L>, twice: AnyOf<L, R>)
    requires
        once@ == (v@.1, v@.0),
        twice@ == (once@.1, once@.0),
    ensures
        twice == v,
{
    AnyOf::lemma_view_eq(twice, v);
}

} // verus!
