use vstd::prelude::*;
use core::convert::Infallible;
use crate::any_of::AnyOf;
use crate::some_of::SomeOf;

verus! {

/// `f` may be called on the value that `slot` holds, if it holds one.
pub open spec fn callable_on<T, U, F: FnOnce(T) -> U>(f: F, slot: Option<T>) -> bool {
    slot is Some ==> f.requires((slot->0,))
}

/// `after` is what `f` makes of `before`: empty where `before` is empty, and
/// otherwise a result that `f` may give on the value of `before`.
pub open spec fn mapped_by<T, U, F: FnOnce(T) -> U>(
    f: F,
    before: Option<T>,
    after: Option<U>,
) -> bool {
    match before {
        Some(x) => after is Some && f.ensures((x,), after->0),
        None => after is None,
    }
}

/// `r` borrows the value that `slot` holds, and is empty where `slot` is.
pub open spec fn borrowed<T>(r: Option<&T>, slot: Option<T>) -> bool {
    match slot {
        Some(x) => r is Some && *r->0 == x,
        None => r is None,
    }
}

/// `r` lends out the value that `slot` holds, and is empty where `slot` is.
pub open spec fn lent<T>(r: Option<&mut T>, slot: Option<T>) -> bool {
    match slot {
        Some(x) => r is Some && *r->0 == x,
        None => r is None,
    }
}

/// Values that may hold zero or one value of a left type and zero or one value
/// of a right type; each can be read as an `AnyOf`.
pub trait TrAnyOf: Sized {
    type Lt;
    type Rt;

    /// The left slot and the right slot.
    spec fn slots(&self) -> (Option<Self::Lt>, Option<Self::Rt>);

    /// The same slots as an `AnyOf`.
    fn into_any_of(self) -> (r: AnyOf<Self::Lt, Self::Rt>)
        ensures
            r@ == self.slots(),
    ;

    /// Applies `f` to the left value, if there is one; the right slot is kept.
    fn map_left<F, U>(self, f: F) -> (r: AnyOf<U, Self::Rt>)
        where
            F: FnOnce(Self::Lt) -> U,
        requires
            callable_on(f, self.slots().0),
        ensures
            mapped_by(f, self.slots().0, r@.0),
            r@.1 == self.slots().1,
    ;

    /// Applies `f` to the right value, if there is one; the left slot is kept.
    fn map_right<F, U>(self, f: F) -> (r: AnyOf<Self::Lt, U>)
        where
            F: FnOnce(Self::Rt) -> U,
        requires
            callable_on(f, self.slots().1),
        ensures
            mapped_by(f, self.slots().1, r@.1),
            r@.0 == self.slots().0,
    ;

    /// Takes the left value out; what remains, where the shape can hold it,
    /// comes back on the right.
    fn take_left(self) -> (r: SomeOf<Self::Lt, Self>)
        ensures
            r@.0 == self.slots().0,
            r@.1 matches Some(rest) ==> rest.slots() == (None::<Self::Lt>, self.slots().1),
    ;

    /// Takes the right value out; what remains, where the shape can hold it,
    /// comes back on the right.
    fn take_right(self) -> (r: SomeOf<Self::Rt, Self>)
        ensures
            r@.0 == self.slots().1,
            r@.1 matches Some(rest) ==> rest.slots() == (self.slots().0, None::<Self::Rt>),
    ;

    /// Borrows the values held.
    fn as_ref<'a>(&'a self) -> (r: AnyOf<&'a Self::Lt, &'a Self::Rt>)
        where
            Self::Lt: 'a,
            Self::Rt: 'a,
        ensures
            borrowed(r@.0, self.slots().0),
            borrowed(r@.1, self.slots().1),
    ;

    /// Borrows the values held mutably; what is written through the result
    /// ends up in `self`.
    fn as_mut<'a>(&'a mut self) -> (r: AnyOf<&'a mut Self::Lt, &'a mut Self::Rt>)
        where
            Self::Lt: 'a,
            Self::Rt: 'a,
        ensures
            lent(r@.0, old(self).slots().0),
            lent(r@.1, old(self).slots().1),
            final(self).slots().0 == (if r@.0 is Some { Some(*final(r@.0->0)) } else { None }),
            final(self).slots().1 == (if r@.1 is Some { Some(*final(r@.1->0)) } else { None }),
    ;

    /// The left value, if there is one.
    fn pick_left(self) -> (r: Option<Self::Lt>)
        ensures
            r == self.slots().0,
    {
        self.into_any_of().split().0
    }

    /// The right value, if there is one.
    fn pick_right(self) -> (r: Option<Self::Rt>)
        ensures
            r == self.slots().1,
    {
        self.into_any_of().split().1
    }

    /// There is a left value.
    fn contains_left(&self) -> (r: bool)
        ensures
            r == self.slots().0 is Some,
    {
        self.as_ref().split().0.is_some()
    }

    /// There is a right value.
    fn contains_right(&self) -> (r: bool)
        ensures
            r == self.slots().1 is Some,
    {
        self.as_ref().split().1.is_some()
    }

    /// There is a left value and `f` holds of it; `f` is not called otherwise.
    fn contains_left_and<F>(&self, f: F) -> (r: bool)
        where
            F: FnOnce(&Self::Lt) -> bool,
        requires
            self.slots().0 is Some ==> f.requires((&self.slots().0->0,)),
        ensures
            self.slots().0 is None ==> !r,
            self.slots().0 is Some ==> f.ensures((&self.slots().0->0,), r),
    {
        if let Some(l) = self.as_ref().split().0 {
            f(l)
        } else {
            false
        }
    }

    /// There is a right value and `f` holds of it; `f` is not called otherwise.
    fn contains_right_and<F>(&self, f: F) -> (r: bool)
        where
            F: FnOnce(&Self::Rt) -> bool,
        requires
            self.slots().1 is Some ==> f.requires((&self.slots().1->0,)),
        ensures
            self.slots().1 is None ==> !r,
            self.slots().1 is Some ==> f.ensures((&self.slots().1->0,), r),
    {
        if let Some(r) = self.as_ref().split().1 {
            f(r)
        } else {
            false
        }
    }
}

/// Values whose left and right sides can be swapped.
pub trait TrInverseLR: TrAnyOf {
    type Inversed: TrAnyOf<Lt = Self::Rt, Rt = Self::Lt>;

    /// The same values with the sides swapped.
    fn into_inversed(self) -> (r: Self::Inversed)
        ensures
            r.slots() == (self.slots().1, self.slots().0),
    ;
}

/// A result is either-shaped: a success on the left, a failure on the right.
impl<T, E> TrAnyOf for Result<T, E> {
    type Lt = T;
    type Rt = E;

    open spec fn slots(&self) -> (Option<T>, Option<E>) {
        match self {
            Ok(t) => (Some(*t), None),
            Err(e) => (None, Some(*e)),
        }
    }

    fn into_any_of(self) -> (r: AnyOf<T, E>) {
        match self {
            Ok(x) => AnyOf::new_left(x),
            Err(e) => AnyOf::new_right(e),
        }
    }

    fn map_left<F, U>(self, f: F) -> (r: AnyOf<U, E>)
        where
            F: FnOnce(T) -> U,
    {
        match self {
            Ok(x) => AnyOf::new_left(f(x)),
            Err(e) => AnyOf::new_right(e),
        }
    }

    fn map_right<F, U>(self, f: F) -> (r: AnyOf<T, U>)
        where
            F: FnOnce(E) -> U,
    {
        match self {
            Ok(x) => AnyOf::new_left(x),
            Err(e) => AnyOf::new_right(f(e)),
        }
    }

    fn take_left(self) -> (r: SomeOf<T, Self>)
        ensures
            r@ == (match self {
                Ok(t) => (Some(t), None),
                Err(e) => (None, Some(Err::<T, E>(e))),
            }),
    {
        match self {
            Ok(t) => SomeOf::new_left(t),
            Err(e) => SomeOf::new_right(Err(e)),
        }
    }

    fn take_right(self) -> (r: SomeOf<E, Self>)
        ensures
            r@ == (match self {
                Ok(t) => (None, Some(Ok::<T, E>(t))),
                Err(e) => (Some(e), None),
            }),
    {
        match self {
            Ok(t) => SomeOf::new_right(Ok(t)),
            Err(e) => SomeOf::new_left(e),
        }
    }

    fn as_ref<'a>(&'a self) -> (r: AnyOf<&'a T, &'a E>)
        where
            T: 'a,
            E: 'a,
    {
        match self {
            Ok(x) => AnyOf::new_left(x),
            Err(e) => AnyOf::new_right(e),
        }
    }

    fn as_mut<'a>(&'a mut self) -> (r: AnyOf<&'a mut T, &'a mut E>)
        where
            T: 'a,
            E: 'a,
    {
        match self {
            Ok(x) => AnyOf::new_left(x),
            Err(e) => AnyOf::new_right(e),
        }
    }
}

/// An option is an `AnyOf` whose right side can never be filled.
impl<T> TrAnyOf for Option<T> {
    type Lt = T;
    type Rt = Infallible;

    open spec fn slots(&self) -> (Option<T>, Option<Infallible>) {
        (*self, None)
    }

    fn into_any_of(self) -> (r: AnyOf<T, Infallible>) {
        match self {
            Some(x) => AnyOf::new_left(x),
            None => AnyOf::new_neither(),
        }
    }

    fn map_left<F, U>(self, f: F) -> (r: AnyOf<U, Infallible>)
        where
            F: FnOnce(T) -> U,
    {
        match self {
            Some(x) => AnyOf::new_left(f(x)),
            None => AnyOf::new_neither(),
        }
    }

    /// There is never a right value to map: only the type changes.
    fn map_right<F, U>(self, f: F) -> (r: AnyOf<T, U>)
        where
            F: FnOnce(Infallible) -> U,
    {
        match self {
            Some(x) => AnyOf::new_left(x),
            None => AnyOf::new_neither(),
        }
    }

    fn take_left(self) -> (r: SomeOf<T, Self>)
        ensures
            r@ == (match self {
                Some(t) => (Some(t), None),
                None => (None, Some(None::<T>)),
            }),
    {
        match self {
            Some(t) => SomeOf::new_left(t),
            None => SomeOf::new_right(None),
        }
    }

    /// There is never a right value to take: the option comes back whole.
    fn take_right(self) -> (r: SomeOf<Infallible, Self>)
        ensures
            r@ == (None::<Infallible>, Some(self)),
    {
        SomeOf::new_right(self)
    }

    fn as_ref<'a>(&'a self) -> (r: AnyOf<&'a T, &'a Infallible>)
        where
            T: 'a,
    {
        match self {
            Some(t) => AnyOf::new_left(t),
            None => AnyOf::new_neither(),
        }
    }

    fn as_mut<'a>(&'a mut self) -> (r: AnyOf<&'a mut T, &'a mut Infallible>)
        where
            T: 'a,
    {
        match self {
            Some(t) => AnyOf::new_left(t),
            None => AnyOf::new_neither(),
        }
    }
}

} // verus!
