//! One operation, applied to whichever alternative a value holds.
//!
//! An operation is a value that can be called on every alternative of a list. Applying it to
//! a value of the list walks the list from the front, one step for each alternative that the
//! tag passes over, and calls the operation on the alternative it arrives at. The walk never
//! reaches the end of the list, because the tag is the position of an alternative: so the
//! empty list has no part in it, and the last alternative is where it ends at the latest.
//!
//! There are three ways to call an operation: on a shared reference, on an exclusive
//! reference, and on two shared references to values of the same alternative. An operation
//! implements the trait of each way in which it can be called.
use crate::internals::{CNil, CoProd, Tuple};
use vstd::prelude::*;

verus! {

/// An operation that can be called on a shared reference to a value of type `T`.
pub trait Func<T>: Sized {
    type Output;

    /// `out` may be the result of the call on `value`.
    spec fn called(self, value: T, out: Self::Output) -> bool;

    fn call(self, value: &T) -> (out: Self::Output)
        ensures
            self.called(*value, out),
    ;
}

/// An operation that can be called on an exclusive reference to a value of type `T`.
pub trait FuncMut<T>: Sized {
    type Output;

    /// `out` may be the result of the call on a value that was `before` and is `after`.
    spec fn called_mut(self, before: T, after: T, out: Self::Output) -> bool;

    fn call_mut(self, value: &mut T) -> (out: Self::Output)
        ensures
            self.called_mut(*old(value), *final(value), out),
    ;
}

/// An operation that can be called on two values of type `T` together.
pub trait FuncWith<T>: Sized {
    type Output;

    /// `out` may be the result of the call on `value` and `other`.
    spec fn called_with(self, value: T, other: T, out: Self::Output) -> bool;

    fn call_with(self, value: &T, other: &T) -> (out: Self::Output)
        ensures
            self.called_with(*value, *other, out),
    ;
}

/// The operation `F`, which has the result `O` on every alternative, can be applied to a
/// shared reference to a value of this list.
pub trait ApplyImp<F, O>: Tuple {
    /// `out` may be the result of the call on the held alternative.
    spec fn applied(self, f: F, out: O) -> bool;

    /// Calls `f` on the held alternative, which is the one at `index`.
    fn apply(&self, index: usize, f: F) -> (out: O)
        requires
            self.proper(),
            index == self.tag(),
        ensures
            self.applied(f, out),
    ;
}

impl<T, F: Func<T, Output = O>, O> ApplyImp<F, O> for CoProd<T, CNil> {
    open spec fn applied(self, f: F, out: O) -> bool {
        match self {
            CoProd::Item(value) => f.called(value, out),
            CoProd::Rest(_) => false,
        }
    }

    fn apply(&self, index: usize, f: F) -> (out: O) {
        match self {
            CoProd::Item(value) => f.call(value),
            CoProd::Rest(_) => vstd::pervasive::unreached(),
        }
    }
}

impl<T, U, R, F: Func<T, Output = O>, O> ApplyImp<F, O> for CoProd<T, CoProd<U, R>> where
    CoProd<U, R>: ApplyImp<F, O>,
 {
    open spec fn applied(self, f: F, out: O) -> bool {
        match self {
            CoProd::Item(value) => f.called(value, out),
            CoProd::Rest(rest) => rest.applied(f, out),
        }
    }

    fn apply(&self, index: usize, f: F) -> (out: O) {
        if index == 0 {
            match self {
                CoProd::Item(value) => f.call(value),
                CoProd::Rest(_) => vstd::pervasive::unreached(),
            }
        } else {
            match self {
                CoProd::Item(_) => vstd::pervasive::unreached(),
                CoProd::Rest(rest) => rest.apply(index - 1, f),
            }
        }
    }
}

/// The operation `F` can be applied to a shared reference to a value of this list, with the
/// result that it has on each of the alternatives.
pub trait Apply<F>: Tuple {
    type Output;

    /// `out` may be the result of the call on the held alternative.
    spec fn applied(self, f: F, out: Self::Output) -> bool;

    /// Calls `f` on the held alternative, which is the one at `index`.
    fn apply(&self, index: usize, f: F) -> (out: Self::Output)
        requires
            self.proper(),
            index == self.tag(),
        ensures
            self.applied(f, out),
    ;
}

impl<T, R, F: Func<T>> Apply<F> for CoProd<T, R> where CoProd<T, R>: ApplyImp<F, F::Output> {
    type Output = F::Output;

    open spec fn applied(self, f: F, out: F::Output) -> bool {
        <Self as ApplyImp<F, F::Output>>::applied(self, f, out)
    }

    fn apply(&self, index: usize, f: F) -> (out: F::Output) {
        <Self as ApplyImp<F, F::Output>>::apply(self, index, f)
    }
}

/// The operation `F`, which has the result `O` on every alternative, can be applied to an
/// exclusive reference to a value of this list.
pub trait ApplyMutImp<F, O>: Tuple {
    /// `out` may be the result of the call on the held alternative, where the call has made
    /// `after` of the value.
    spec fn applied_mut(self, after: Self, f: F, out: O) -> bool;

    /// The call leaves the value with the alternative it had.
    proof fn lemma_applied_mut(self, after: Self, f: F, out: O)
        ensures
            self.proper() && self.applied_mut(after, f, out) ==> after.proper() && after.tag()
                == self.tag(),
    ;

    /// Calls `f` on the held alternative, which is the one at `index`.
    fn apply_mut(&mut self, index: usize, f: F) -> (out: O)
        requires
            old(self).proper(),
            index == old(self).tag(),
        ensures
            old(self).applied_mut(*final(self), f, out),
    ;
}

impl<T, F: FuncMut<T, Output = O>, O> ApplyMutImp<F, O> for CoProd<T, CNil> {
    open spec fn applied_mut(self, after: Self, f: F, out: O) -> bool {
        match (self, after) {
            (CoProd::Item(value), CoProd::Item(changed)) => f.called_mut(value, changed, out),
            _ => false,
        }
    }

    proof fn lemma_applied_mut(self, after: Self, f: F, out: O) {
    }

    fn apply_mut(&mut self, index: usize, f: F) -> (out: O) {
        match self {
            CoProd::Item(value) => f.call_mut(value),
            CoProd::Rest(_) => vstd::pervasive::unreached(),
        }
    }
}

impl<T, U, R, F: FuncMut<T, Output = O>, O> ApplyMutImp<F, O> for CoProd<T, CoProd<U, R>> where
    CoProd<U, R>: ApplyMutImp<F, O>,
 {
    open spec fn applied_mut(self, after: Self, f: F, out: O) -> bool {
        match (self, after) {
            (CoProd::Item(value), CoProd::Item(changed)) => f.called_mut(value, changed, out),
            (CoProd::Rest(rest), CoProd::Rest(changed)) => rest.applied_mut(changed, f, out),
            _ => false,
        }
    }

    proof fn lemma_applied_mut(self, after: Self, f: F, out: O) {
        match (self, after) {
            (CoProd::Rest(rest), CoProd::Rest(changed)) => {
                rest.lemma_applied_mut(changed, f, out);
            },
            _ => {},
        }
    }

    fn apply_mut(&mut self, index: usize, f: F) -> (out: O) {
        if index == 0 {
            match self {
                CoProd::Item(value) => f.call_mut(value),
                CoProd::Rest(_) => vstd::pervasive::unreached(),
            }
        } else {
            match self {
                CoProd::Item(_) => vstd::pervasive::unreached(),
                CoProd::Rest(rest) => rest.apply_mut(index - 1, f),
            }
        }
    }
}

/// The operation `F`, which has the result `O` on every alternative, can be applied to two
/// values of this list that hold the same alternative.
pub trait ApplyWithImp<F, O>: Tuple {
    /// `out` may be the result of the call on the alternatives that this value and `other`
    /// hold.
    spec fn applied_with(self, other: Self, f: F, out: O) -> bool;

    /// Calls `f` on the held alternatives of this value and of `other`, which both are the
    /// one at `index`.
    fn apply_with(&self, other: &Self, index: usize, f: F) -> (out: O)
        requires
            self.proper(),
            other.proper(),
            index == self.tag(),
            index == other.tag(),
        ensures
            self.applied_with(*other, f, out),
    ;
}

impl<T, F: FuncWith<T, Output = O>, O> ApplyWithImp<F, O> for CoProd<T, CNil> {
    open spec fn applied_with(self, other: Self, f: F, out: O) -> bool {
        match (self, other) {
            (CoProd::Item(value), CoProd::Item(second)) => f.called_with(value, second, out),
            _ => false,
        }
    }

    fn apply_with(&self, other: &Self, index: usize, f: F) -> (out: O) {
        match (self, other) {
            (CoProd::Item(value), CoProd::Item(second)) => f.call_with(value, second),
            _ => vstd::pervasive::unreached(),
        }
    }
}

impl<T, U, R, F: FuncWith<T, Output = O>, O> ApplyWithImp<F, O> for CoProd<T, CoProd<U, R>> where
    CoProd<U, R>: ApplyWithImp<F, O>,
 {
    open spec fn applied_with(self, other: Self, f: F, out: O) -> bool {
        match (self, other) {
            (CoProd::Item(value), CoProd::Item(second)) => f.called_with(value, second, out),
            (CoProd::Rest(rest), CoProd::Rest(second)) => rest.applied_with(second, f, out),
            _ => false,
        }
    }

    fn apply_with(&self, other: &Self, index: usize, f: F) -> (out: O) {
        if index == 0 {
            match (self, other) {
                (CoProd::Item(value), CoProd::Item(second)) => f.call_with(value, second),
                _ => vstd::pervasive::unreached(),
            }
        } else {
            match (self, other) {
                (CoProd::Rest(rest), CoProd::Rest(second)) => rest.apply_with(second, index - 1, f),
                _ => vstd::pervasive::unreached(),
            }
        }
    }
}

/// The operation `F` can be applied to an exclusive reference to a value of this list, with
/// the result that it has on each of the alternatives.
pub trait ApplyMut<F>: Tuple {
    type Output;

    /// `out` may be the result of the call on the held alternative, where the call has made
    /// `after` of the value.
    spec fn applied_mut(self, after: Self, f: F, out: Self::Output) -> bool;

    /// The call leaves the value with the alternative it had.
    proof fn lemma_applied_mut(self, after: Self, f: F, out: Self::Output)
        ensures
            self.proper() && self.applied_mut(after, f, out) ==> after.proper() && after.tag()
                == self.tag(),
    ;

    /// Calls `f` on the held alternative, which is the one at `index`.
    fn apply_mut(&mut self, index: usize, f: F) -> (out: Self::Output)
        requires
            old(self).proper(),
            index == old(self).tag(),
        ensures
            old(self).applied_mut(*final(self), f, out),
    ;
}

impl<T, R, F: FuncMut<T>> ApplyMut<F> for CoProd<T, R> where
    CoProd<T, R>: ApplyMutImp<F, F::Output>,
 {
    type Output = F::Output;

    open spec fn applied_mut(self, after: Self, f: F, out: F::Output) -> bool {
        <Self as ApplyMutImp<F, F::Output>>::applied_mut(self, after, f, out)
    }

    proof fn lemma_applied_mut(self, after: Self, f: F, out: F::Output) {
        <Self as ApplyMutImp<F, F::Output>>::lemma_applied_mut(self, after, f, out);
    }

    fn apply_mut(&mut self, index: usize, f: F) -> (out: F::Output) {
        <Self as ApplyMutImp<F, F::Output>>::apply_mut(self, index, f)
    }
}

/// The operation `F` can be applied to two values of this list that hold the same
/// alternative, with the result that it has on each of the alternatives.
pub trait ApplyWith<F>: Tuple {
    type Output;

    /// `out` may be the result of the call on the alternatives that this value and `other`
    /// hold.
    spec fn applied_with(self, other: Self, f: F, out: Self::Output) -> bool;

    /// Calls `f` on the held alternatives of this value and of `other`, which both are the
    /// one at `index`.
    fn apply_with(&self, other: &Self, index: usize, f: F) -> (out: Self::Output)
        requires
            self.proper(),
            other.proper(),
            index == self.tag(),
            index == other.tag(),
        ensures
            self.applied_with(*other, f, out),
    ;
}

impl<T, R, F: FuncWith<T>> ApplyWith<F> for CoProd<T, R> where
    CoProd<T, R>: ApplyWithImp<F, F::Output>,
 {
    type Output = F::Output;

    open spec fn applied_with(self, other: Self, f: F, out: F::Output) -> bool {
        <Self as ApplyWithImp<F, F::Output>>::applied_with(self, other, f, out)
    }

    fn apply_with(&self, other: &Self, index: usize, f: F) -> (out: F::Output) {
        <Self as ApplyWithImp<F, F::Output>>::apply_with(self, other, index, f)
    }
}

} // verus!
