use vstd::prelude::*;

verus! {

/// A value of type `T` can be had from `self`, by value.
///
/// Each trait of this family states what its method hands out as a relation
/// with a default of `true`: an implementation that does not say more is
/// taken to promise nothing.
pub trait Param<T> {
    /// Whether `value` is what `param` may return.
    open spec fn yields(&self, value: T) -> bool {
        true
    }

    fn param(&self) -> (value: T)
        ensures
            self.yields(value),
    ;
}

/// A value of type `T` can be borrowed from `self`.
pub trait ParamRef<T> {
    /// Whether `value` is what `param_ref` may lend.
    open spec fn lends(&self, value: &T) -> bool {
        true
    }

    fn param_ref(&self) -> (value: &T)
        ensures
            self.lends(value),
    ;
}

/// A value of type `T` may be there to borrow from `self`.
pub trait ParamMaybeRef<T> {
    /// Whether `value` is what `param_maybe_ref` may lend.
    open spec fn maybe_lends(&self, value: Option<&T>) -> bool {
        true
    }

    fn param_maybe_ref(&self) -> (value: Option<&T>)
        ensures
            self.maybe_lends(value),
    ;
}

/// A value of type `T` can be borrowed from `self` to be changed.
pub trait ParamMut<T> {
    /// Whether `value` is what `param_mut` may lend.
    open spec fn lends_mut(&self, value: &T) -> bool {
        true
    }

    /// Whether `after` is what `self` is once the borrow ends with `value`
    /// in the place lent out.
    open spec fn gives_back(&self, value: &T, after: &Self) -> bool {
        true
    }

    fn param_mut(&mut self) -> (value: &mut T)
        ensures
            Self::lends_mut(&*old(self), &*value),
            Self::gives_back(&*old(self), &*final(value), &*final(self)),
    ;
}

/// A value of type `T` may be there to borrow from `self` to be changed.
pub trait ParamMaybeMut<T> {
    /// Whether `value` is what `param_maybe_mut` may lend.
    open spec fn maybe_lends_mut(&self, value: Option<&T>) -> bool {
        true
    }

    /// Whether `after` is what `self` is once the borrow ends with `value`
    /// in the place lent out.
    open spec fn gives_back(&self, value: &T, after: &Self) -> bool {
        true
    }

    /// Whether `after` is what `self` is after a call that lent nothing.
    open spec fn keeps(&self, after: &Self) -> bool {
        true
    }

    fn param_maybe_mut(&mut self) -> (value: Option<&mut T>)
        ensures
            match value {
                Some(v) => {
                    &&& Self::maybe_lends_mut(&*old(self), Some(&*v))
                    &&& Self::gives_back(&*old(self), &*final(v), &*final(self))
                },
                None => {
                    &&& Self::maybe_lends_mut(&*old(self), None)
                    &&& Self::keeps(&*old(self), &*final(self))
                },
            },
    ;
}

/// A value of type `T` can be put into `self`, which changes its type.
pub trait ParamSet<T> {
    /// What `self` becomes once the value is in it.
    type Transformed;

    /// Whether `after` is what `param_set(item)` may return.
    open spec fn sets(self, item: T, after: Self::Transformed) -> bool where Self: Sized {
        true
    }

    fn param_set(self, item: T) -> (after: Self::Transformed)
        ensures
            self.sets(item, after),
    ;
}

/// A value of type `T` can be removed from `self` whether or not one is
/// there, which changes the type of `self`.
pub trait ParamRemove<T> {
    /// What `self` becomes once the value is out of it.
    type Transformed;

    /// Whether `after` is what `param_remove` may return.
    open spec fn removes(self, after: Self::Transformed) -> bool where Self: Sized {
        true
    }

    fn param_remove(self) -> (after: Self::Transformed)
        ensures
            self.removes(after),
    ;
}

/// A value of type `T` is in `self` and can be taken out, which changes the
/// type of `self`.
pub trait ParamTake<T> {
    /// What `self` becomes once the value is out of it.
    type Transformed;

    /// Whether `(after, item)` is what `param_take` may return.
    open spec fn takes(self, after: Self::Transformed, item: T) -> bool where Self: Sized {
        true
    }

    fn param_take(self) -> (taken: (Self::Transformed, T))
        ensures
            self.takes(taken.0, taken.1),
    ;
}

/// Every value that can be cloned yields a clone of itself.
impl<T: Clone> Param<T> for T {
    open spec fn yields(&self, value: T) -> bool {
        cloned(*self, value)
    }

    fn param(&self) -> (value: T) {
        self.clone()
    }
}

/// Every value lends itself.
impl<T> ParamRef<T> for T {
    open spec fn lends(&self, value: &T) -> bool {
        *value == *self
    }

    fn param_ref(&self) -> (value: &T) {
        self
    }
}

/// Every value lends itself to be changed, and is afterwards whatever was
/// left in its place.
impl<T> ParamMut<T> for T {
    open spec fn lends_mut(&self, value: &T) -> bool {
        *value == *self
    }

    open spec fn gives_back(&self, value: &T, after: &T) -> bool {
        *after == *value
    }

    fn param_mut(&mut self) -> (value: &mut T) {
        self
    }
}

} // verus!
