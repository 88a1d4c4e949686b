use vstd::prelude::*;
use crate::abs::{borrowed, callable_on, lent, mapped_by, TrAnyOf, TrInverseLR};
use crate::any_of::AnyOf;
use crate::some_of::SomeOf;

verus! {

/// Values that hold exactly one value, of a left type or of a right type.
pub trait TrEitherOf: Sized {
    type Lt;
    type Rt;

    /// The value held, on its side.
    spec fn held(&self) -> EitherOf<Self::Lt, Self::Rt>;

    /// Applies `f` to a left value; a right value passes through.
    fn map_left<F, U>(self, f: F) -> (r: EitherOf<U, Self::Rt>)
        where
            F: FnOnce(Self::Lt) -> U,
        requires
            callable_on(f, self.held()@.0),
        ensures
            mapped_by(f, self.held()@.0, r@.0),
            r@.1 == self.held()@.1,
    ;

    /// Applies `f` to a right value; a left value passes through.
    fn map_right<F, U>(self, f: F) -> (r: EitherOf<Self::Lt, U>)
        where
            F: FnOnce(Self::Rt) -> U,
        requires
            callable_on(f, self.held()@.1),
        ensures
            mapped_by(f, self.held()@.1, r@.1),
            r@.0 == self.held()@.0,
    ;

    /// Borrows the value held, keeping the side.
    fn as_ref<'a>(&'a self) -> (r: EitherOf<&'a Self::Lt, &'a Self::Rt>)
        where
            Self::Lt: 'a,
            Self::Rt: 'a,
        ensures
            borrowed(r@.0, self.held()@.0),
            borrowed(r@.1, self.held()@.1),
    ;

    /// Borrows the value held mutably, keeping the side; what is written
    /// through the result ends up in `self`.
    fn as_mut<'a>(&'a mut self) -> (r: EitherOf<&'a mut Self::Lt, &'a mut Self::Rt>)
        where
            Self::Lt: 'a,
            Self::Rt: 'a,
        ensures
            lent(r@.0, old(self).held()@.0),
            lent(r@.1, old(self).held()@.1),
            final(self).held()@.0 == (if r@.0 is Some { Some(*final(r@.0->0)) } else { None }),
            final(self).held()@.1 == (if r@.1 is Some { Some(*final(r@.1->0)) } else { None }),
    ;
}

/// Exactly one value: either of type `L` or of type `R`.
#[derive(Debug)]
pub enum EitherOf<L, R> {
    Left(L),
    Right(R),
}

impl<L, R> View for EitherOf<L, R> {
    type V = (Option<L>, Option<R>);

    /// The left slot and the right slot; exactly one of them holds a value.
    open spec fn view(&self) -> (Option<L>, Option<R>) {
        match self {
            EitherOf::Left(l) => (Some(*l), None),
            EitherOf::Right(r) => (None, Some(*r)),
        }
    }
}

impl<L, R> EitherOf<L, R> {
    /// Exactly one slot of an `EitherOf` holds a value.
    pub proof fn lemma_one_side(&self)
        ensures
            self@.0 is Some != self@.1 is Some,
    {
    }

    /// Wraps a value of `L`.
    pub fn new_left(l: L) -> (r: Self)
        ensures
            r == EitherOf::<L, R>::Left(l),
    {
        EitherOf::Left(l)
    }

    /// Wraps a value of `R`.
    pub fn new_right(r: R) -> (e: Self)
        ensures
            e == EitherOf::<L, R>::Right(r),
    {
        EitherOf::Right(r)
    }

    /// The optional left value and the optional right value.
    pub fn split(self) -> (r: (Option<L>, Option<R>))
        ensures
            r == self@,
    {
        match self {
            EitherOf::Left(l) => (Some(l), None),
            EitherOf::Right(r) => (None, Some(r)),
        }
    }

    /// Applies `f` to a left value; a right value passes through.
    pub fn map_left<F, T>(self, f: F) -> (r: EitherOf<T, R>)
        where
            F: FnOnce(L) -> T,
        requires
            callable_on(f, self@.0),
        ensures
            mapped_by(f, self@.0, r@.0),
            r@.1 == self@.1,
    {
        match self {
            EitherOf::Left(l) => EitherOf::new_left(f(l)),
            EitherOf::Right(r) => EitherOf::new_right(r),
        }
    }

    /// Applies `f` to a right value; a left value passes through.
    pub fn map_right<F, T>(self, f: F) -> (r: EitherOf<L, T>)
        where
            F: FnOnce(R) -> T,
        requires
            callable_on(f, self@.1),
        ensures
            mapped_by(f, self@.1, r@.1),
            r@.0 == self@.0,
    {
        match self {
            EitherOf::Left(l) => EitherOf::<L, T>::Left(l),
            EitherOf::Right(r) => EitherOf::<L, T>::Right(f(r)),
        }
    }

    /// A left value comes out on the left; a right value is kept whole on the
    /// right.
    pub fn take_left(self) -> (r: EitherOf<L, Self>)
        ensures
            r == (match self {
                EitherOf::Left(l) => EitherOf::<L, Self>::Left(l),
                EitherOf::Right(x) => EitherOf::<L, Self>::Right(EitherOf::Right(x)),
            }),
    {
        match self {
            EitherOf::Left(l) => EitherOf::new_left(l),
            EitherOf::Right(r) => EitherOf::new_right(EitherOf::new_right(r)),
        }
    }

    /// A right value comes out on the left; a left value is kept whole on the
    /// right.
    pub fn take_right(self) -> (r: EitherOf<R, Self>)
        ensures
            r == (match self {
                EitherOf::Left(x) => EitherOf::<R, Self>::Right(EitherOf::Left(x)),
                EitherOf::Right(r) => EitherOf::<R, Self>::Left(r),
            }),
    {
        match self {
            EitherOf::Left(l) => EitherOf::Right(EitherOf::new_left(l)),
            EitherOf::Right(r) => EitherOf::new_left(r),
        }
    }

    /// Borrows the value held, keeping the side.
    pub fn as_ref(&self) -> (r: EitherOf<&L, &R>)
        ensures
            borrowed(r@.0, self@.0),
            borrowed(r@.1, self@.1),
    {
        match self {
            EitherOf::Left(l) => EitherOf::Left(l),
            EitherOf::Right(r) => EitherOf::Right(r),
        }
    }

    /// Borrows the value held mutably, keeping the side; what is written
    /// through the result ends up in `self`.
    pub fn as_mut(&mut self) -> (r: EitherOf<&mut L, &mut R>)
        ensures
            lent(r@.0, old(self)@.0),
            lent(r@.1, old(self)@.1),
            final(self)@.0 == (if r@.0 is Some { Some(*final(r@.0->0)) } else { None }),
            final(self)@.1 == (if r@.1 is Some { Some(*final(r@.1->0)) } else { None }),
    {
        match self {
            EitherOf::Left(l) => EitherOf::Left(l),
            EitherOf::Right(r) => EitherOf::Right(r),
        }
    }

    /// The left value, if this is one.
    pub fn left(self) -> (r: Option<L>)
        ensures
            r == self@.0,
    {
        if let EitherOf::Left(l) = self {
            Some(l)
        } else {
            None
        }
    }

    /// The right value, if this is one.
    pub fn right(self) -> (r: Option<R>)
        ensures
            r == self@.1,
    {
        if let EitherOf::Right(r) = self {
            Some(r)
        } else {
            None
        }
    }

    /// Swaps the two sides.
    pub fn reverse(self) -> (r: EitherOf<R, L>)
        ensures
            r@ == (self@.1, self@.0),
    {
        match self {
            EitherOf::Left(x) => EitherOf::<R, L>::Right(x),
            EitherOf::Right(x) => EitherOf::<R, L>::Left(x),
        }
    }

    /// This is a left value.
    pub fn is_left(&self) -> (r: bool)
        ensures
            r == self is Left,
    {
        match self {
            EitherOf::Left(_) => true,
            _ => false,
        }
    }

    /// This is a right value.
    pub fn is_right(&self) -> (r: bool)
        ensures
            r == self is Right,
    {
        match self {
            EitherOf::Right(_) => true,
            _ => false,
        }
    }

    /// A left value for which `f` holds; `f` is not called on a right value.
    pub fn is_left_and<F>(&self, f: F) -> (r: bool)
        where
            F: FnOnce(&L) -> bool,
        requires
            self is Left ==> f.requires((&self->Left_0,)),
        ensures
            self is Right ==> !r,
            self is Left ==> f.ensures((&self->Left_0,), r),
    {
        if let EitherOf::Left(x) = self {
            f(x)
        } else {
            false
        }
    }

    /// A right value for which `f` holds; `f` is not called on a left value.
    pub fn is_right_and<F>(&self, f: F) -> (r: bool)
        where
            F: FnOnce(&R) -> bool,
        requires
            self is Right ==> f.requires((&self->Right_0,)),
        ensures
            self is Left ==> !r,
            self is Right ==> f.ensures((&self->Right_0,), r),
    {
        if let EitherOf::Right(x) = self {
            f(x)
        } else {
            false
        }
    }
}

impl<T> EitherOf<T, T> {
    /// The value held, whichever side it is on.
    pub fn into_inner(self) -> (r: T)
        ensures
            r == (match self {
                EitherOf::Left(x) => x,
                EitherOf::Right(x) => x,
            }),
    {
        match self {
            EitherOf::Left(x) => x,
            EitherOf::Right(x) => x,
        }
    }
}

impl<L> From<Option<L>> for EitherOf<L, ()> {
    /// A present value goes left; absence becomes the unit on the right.
    fn from(value: Option<L>) -> (r: Self)
        ensures
            r == (match value {
                Some(l) => EitherOf::<L, ()>::Left(l),
                None => EitherOf::<L, ()>::Right(()),
            }),
    {
        match value {
            Some(left) => EitherOf::Left(left),
            None => EitherOf::Right(()),
        }
    }
}

impl<L> vstd::std_specs::convert::FromSpecImpl<Option<L>> for EitherOf<L, ()> {
    open spec fn obeys_from_spec() -> bool {
        true
    }

    open spec fn from_spec(value: Option<L>) -> Self {
        match value {
            Some(l) => EitherOf::Left(l),
            None => EitherOf::Right(()),
        }
    }
}

impl<T, E> From<Result<T, E>> for EitherOf<T, E> {
    /// A success goes left and a failure goes right.
    fn from(value: Result<T, E>) -> (r: Self)
        ensures
            r == (match value {
                Ok(t) => EitherOf::<T, E>::Left(t),
                Err(e) => EitherOf::<T, E>::Right(e),
            }),
    {
        match value {
            Ok(t) => EitherOf::Left(t),
            Err(e) => EitherOf::Right(e),
        }
    }
}

impl<T, E> vstd::std_specs::convert::FromSpecImpl<Result<T, E>> for EitherOf<T, E> {
    open spec fn obeys_from_spec() -> bool {
        true
    }

    open spec fn from_spec(value: Result<T, E>) -> Self {
        match value {
            Ok(t) => EitherOf::Left(t),
            Err(e) => EitherOf::Right(e),
        }
    }
}

impl<L, R> TrInverseLR for EitherOf<L, R> {
    type Inversed = EitherOf<R, L>;

    fn into_inversed(self) -> (r: EitherOf<R, L>) {
        EitherOf::reverse(self)
    }
}

impl<L, R> TrAnyOf for EitherOf<L, R> {
    type Lt = L;
    type Rt = R;

    open spec fn slots(&self) -> (Option<L>, Option<R>) {
        self@
    }

    fn into_any_of(self) -> (r: AnyOf<L, R>) {
        match self {
            EitherOf::Left(l) => AnyOf::new_left(l),
            EitherOf::Right(r) => AnyOf::new_right(r),
        }
    }

    fn map_left<F, U>(self, f: F) -> (r: AnyOf<U, R>)
        where
            F: FnOnce(L) -> U,
    {
        match self {
            EitherOf::Left(l) => AnyOf::new_left(f(l)),
            EitherOf::Right(r) => AnyOf::new_right(r),
        }
    }

    fn map_right<F, U>(self, f: F) -> (r: AnyOf<L, U>)
        where
            F: FnOnce(R) -> U,
    {
        match self {
            EitherOf::Left(l) => AnyOf::new_left(l),
            EitherOf::Right(r) => AnyOf::new_right(f(r)),
        }
    }

    fn take_left(self) -> (r: SomeOf<L, Self>) {
        match self {
            EitherOf::Left(l) => SomeOf::new_left(l),
            EitherOf::Right(r) => SomeOf::new_right(EitherOf::Right(r)),
        }
    }

    fn take_right(self) -> (r: SomeOf<R, Self>) {
        match self {
            EitherOf::Left(l) => SomeOf::new_right(EitherOf::Left(l)),
            EitherOf::Right(r) => SomeOf::new_left(r),
        }
    }

    fn as_ref<'a>(&'a self) -> (r: AnyOf<&'a L, &'a R>)
        where
            L: 'a,
            R: 'a,
    {
        match self {
            EitherOf::Left(l) => AnyOf::new_left(l),
            EitherOf::Right(r) => AnyOf::new_right(r),
        }
    }

    fn as_mut<'a>(&'a mut self) -> (r: AnyOf<&'a mut L, &'a mut R>)
        where
            L: 'a,
            R: 'a,
    {
        match self {
            EitherOf::Left(l) => AnyOf::new_left(l),
            EitherOf::Right(r) => AnyOf::new_right(r),
        }
    }

    fn contains_left(&self) -> (r: bool) {
        EitherOf::is_left(self)
    }

    fn contains_right(&self) -> (r: bool) {
        EitherOf::is_right(self)
    }
}

impl<L, R> TrEitherOf for EitherOf<L, R> {
    type Lt = L;
    type Rt = R;

    open spec fn held(&self) -> EitherOf<L, R> {
        *self
    }

    fn map_left<F, U>(self, f: F) -> (r: EitherOf<U, R>)
        where
            F: FnOnce(L) -> U,
    {
        EitherOf::map_left(self, f)
    }

    fn map_right<F, U>(self, f: F) -> (r: EitherOf<L, U>)
        where
            F: FnOnce(R) -> U,
    {
        EitherOf::map_right(self, f)
    }

    fn as_ref<'a>(&'a self) -> (r: EitherOf<&'a L, &'a R>)
        where
            L: 'a,
            R: 'a,
    {
        EitherOf::as_ref(self)
    }

    fn as_mut<'a>(&'a mut self) -> (r: EitherOf<&'a mut L, &'a mut R>)
        where
            L: 'a,
            R: 'a,
    {
        EitherOf::as_mut(self)
    }
}

/// A result is either-shaped: a success on the left, a failure on the right.
impl<T, E> TrEitherOf for Result<T, E> {
    type Lt = T;
    type Rt = E;

    open spec fn held(&self) -> EitherOf<T, E> {
        match self {
            Ok(t) => EitherOf::Left(*t),
            Err(e) => EitherOf::Right(*e),
        }
    }

    fn map_left<F, U>(self, f: F) -> (r: EitherOf<U, E>)
        where
            F: FnOnce(T) -> U,
    {
        match self {
            Ok(t) => EitherOf::Left(f(t)),
            Err(e) => EitherOf::Right(e),
        }
    }

    fn map_right<F, U>(self, f: F) -> (r: EitherOf<T, U>)
        where
            F: FnOnce(E) -> U,
    {
        match self {
            Ok(t) => EitherOf::Left(t),
            Err(e) => EitherOf::Right(f(e)),
        }
    }

    fn as_ref<'a>(&'a self) -> (r: EitherOf<&'a T, &'a E>)
        where
            T: 'a,
            E: 'a,
    {
        match self {
            Ok(t) => EitherOf::Left(t),
            Err(e) => EitherOf::Right(e),
        }
    }

    fn as_mut<'a>(&'a mut self) -> (r: EitherOf<&'a mut T, &'a mut E>)
        where
            T: 'a,
            E: 'a,
    {
        match self {
            Ok(t) => EitherOf::Left(t),
            Err(e) => EitherOf::Right(e),
        }
    }
}

impl<L: Clone, R: Clone> Clone for EitherOf<L, R> {
    fn clone(&self) -> (r: Self) {
        match self {
            EitherOf::Left(l) => EitherOf::Left(l.clone()),
            EitherOf::Right(r) => EitherOf::Right(r.clone()),
        }
    }
}

impl<L: Copy, R: Copy> Copy for EitherOf<L, R> {}

/// Reversing an `EitherOf` twice gives back the value it started from.
pub proof fn lemma_reverse_twice<L, R>(v: EitherOf<L, R>, once: EitherOf<R, L>, twice: EitherOf<L, R>)
    requires
        once@ == (v@.1, v@.0),
        twice@ == (once@.1, once@.0),
    ensures
        twice == v,
{
}

} // verus!
