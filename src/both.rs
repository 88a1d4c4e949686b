use vstd::prelude::*;
use crate::abs::{TrAnyOf, TrInverseLR};
use crate::any_of::AnyOf;
use crate::some_of::SomeOf;

verus! {

/// Exactly one value of `L` and one value of `R`.
pub type BothOf<L, R> = (L, R);

impl<L, R> TrInverseLR for (L, R) {
    type Inversed = (R, L);

    fn into_inversed(self) -> (r: (R, L)) {
        (self.1, self.0)
    }
}

/// A pair always holds both sides.
impl<L, R> TrAnyOf for (L, R) {
    type Lt = L;
    type Rt = R;

    open spec fn slots(&self) -> (Option<L>, Option<R>) {
        (Some(self.0), Some(self.1))
    }

    fn into_any_of(self) -> (r: AnyOf<L, R>) {
        AnyOf::new_both(self.0, self.1)
    }

    fn map_left<F, U>(self, f: F) -> (r: AnyOf<U, R>)
        where
            F: FnOnce(L) -> U,
    {
        let (l, r) = self;
        AnyOf::new_both(f(l), r)
    }

    fn map_right<F, U>(self, f: F) -> (r: AnyOf<L, U>)
        where
            F: FnOnce(R) -> U,
    {
        let (l, r) = self;
        AnyOf::new_both(l, f(r))
    }

    /// A pair cannot hold its right value alone, so nothing comes back with
    /// the left value.
    fn take_left(self) -> (r: SomeOf<L, Self>)
        ensures
            r@ == (Some(self.0), None::<Self>),
    {
        SomeOf::new_left(self.0)
    }

    /// A pair cannot hold its left value alone, so nothing comes back with
    /// the right value.
    fn take_right(self) -> (r: SomeOf<R, Self>)
        ensures
            r@ == (Some(self.1), None::<Self>),
    {
        SomeOf::new_left(self.1)
    }

    fn as_ref<'a>(&'a self) -> (r: AnyOf<&'a L, &'a R>)
        where
            L: 'a,
            R: 'a,
    {
        AnyOf::new_both(&self.0, &self.1)
    }

    fn as_mut<'a>(&'a mut self) -> (r: AnyOf<&'a mut L, &'a mut R>)
        where
            L: 'a,
            R: 'a,
    {
        AnyOf::new_both(&mut self.0, &mut self.1)
    }
}

/// Swapping the sides of a pair twice gives back the pair it started from.
pub proof fn lemma_inverse_twice<L, R>(v: BothOf<L, R>, once: BothOf<R, L>, twice: BothOf<L, R>)
    requires
        once.slots() == (v.slots().1, v.slots().0),
        twice.slots() == (once.slots().1, once.slots().0),
    ensures
        twice == v,
{
}

} // verus!
