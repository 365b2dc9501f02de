//! Iteration through a cell: a cell whose alternatives are iterators is advanced like the
//! iterator it holds.
//!
//! What an iterator yields is the iterator's own matter, and nothing is said of it here. What
//! is said is which of the iterator's methods was called, with what, and that its answer is
//! the one handed on.
use crate::dispatch::{Apply, ApplyMut, Func, FuncMut};
use crate::internals::TypeList;
use crate::strategy::AllocStrategy;
use crate::Vari;
use vstd::prelude::*;

verus! {

/// Advances an iterator held by value by one item, as `Iterator::next` does, and hands back
/// the iterator with the item. Nothing is claimed of either.
#[verifier::external_body]
fn iter_next_owned<T: Iterator>(iter: T) -> (T, Option<T::Item>) {
    let mut iter = iter;
    let item = iter.next();
    (iter, item)
}

/// `after` and `item` are what `Iterator::next` made of the iterator `before` and gave.
pub closed spec fn stepped<T: Iterator>(before: T, after: T, item: Option<T::Item>) -> bool {
    call_ensures(iter_next_owned::<T>, (before,), (after, item))
}

/// Advances `iter` by one item, as `Iterator::next` does. The iterator after and the item are
/// what `Iterator::next` makes of the iterator before when that is held by value; nothing
/// more is claimed of them.
#[verifier::external_body]
fn iter_next<T: Iterator>(iter: &mut T) -> (item: Option<T::Item>)
    ensures
        stepped(*old(iter), *final(iter), item),
{
    iter.next()
}

/// Advances an iterator held by value past `n` items and by one more, as `Iterator::nth`
/// does, and hands back the iterator with that item. Nothing is claimed of either.
#[verifier::external_body]
fn iter_nth_owned<T: Iterator>(iter: T, n: usize) -> (T, Option<T::Item>) {
    let mut iter = iter;
    let item = iter.nth(n);
    (iter, item)
}

/// `after` and `item` are what `Iterator::nth` made of the iterator `before` and gave for
/// `n`.
pub closed spec fn skipped<T: Iterator>(
    before: T,
    n: usize,
    after: T,
    item: Option<T::Item>,
) -> bool {
    call_ensures(iter_nth_owned::<T>, (before, n), (after, item))
}

/// Advances `iter` past `n` items and by one more, as `Iterator::nth` does. The iterator
/// after and the item are what `Iterator::nth` makes of the iterator before when that is held
/// by value; nothing more is claimed of them.
#[verifier::external_body]
fn iter_nth<T: Iterator>(iter: &mut T, n: usize) -> (item: Option<T::Item>)
    ensures
        skipped(*old(iter), n, *final(iter), item),
{
    iter.nth(n)
}

/// Advances an iterator held by value by one item from the back, as
/// `DoubleEndedIterator::next_back` does, and hands back the iterator with the item. Nothing
/// is claimed of either.
#[verifier::external_body]
fn iter_next_back_owned<T: DoubleEndedIterator>(iter: T) -> (T, Option<T::Item>) {
    let mut iter = iter;
    let item = iter.next_back();
    (iter, item)
}

/// `after` and `item` are what `DoubleEndedIterator::next_back` made of the iterator `before`
/// and gave.
pub closed spec fn stepped_back<T: DoubleEndedIterator>(
    before: T,
    after: T,
    item: Option<T::Item>,
) -> bool {
    call_ensures(iter_next_back_owned::<T>, (before,), (after, item))
}

/// Advances `iter` by one item from the back, as `DoubleEndedIterator::next_back` does. The
/// iterator after and the item are what `DoubleEndedIterator::next_back` makes of the iterator
/// before when that is held by value; nothing more is claimed of them.
#[verifier::external_body]
fn iter_next_back<T: DoubleEndedIterator>(iter: &mut T) -> (item: Option<T::Item>)
    ensures
        stepped_back(*old(iter), *final(iter), item),
{
    iter.next_back()
}

/// Advances an iterator held by value past `n` items from the back and by one more, as
/// `DoubleEndedIterator::nth_back` does, and hands back the iterator with that item. Nothing
/// is claimed of either.
#[verifier::external_body]
fn iter_nth_back_owned<T: DoubleEndedIterator>(iter: T, n: usize) -> (T, Option<T::Item>) {
    let mut iter = iter;
    let item = iter.nth_back(n);
    (iter, item)
}

/// `after` and `item` are what `DoubleEndedIterator::nth_back` made of the iterator `before`
/// and gave for `n`.
pub closed spec fn skipped_back<T: DoubleEndedIterator>(
    before: T,
    n: usize,
    after: T,
    item: Option<T::Item>,
) -> bool {
    call_ensures(iter_nth_back_owned::<T>, (before, n), (after, item))
}

/// Advances `iter` past `n` items from the back and by one more, as
/// `DoubleEndedIterator::nth_back` does. The iterator after and the item are what
/// `DoubleEndedIterator::nth_back` makes of the iterator before when that is held by value;
/// nothing more is claimed of them.
#[verifier::external_body]
fn iter_nth_back<T: DoubleEndedIterator>(iter: &mut T, n: usize) -> (item: Option<T::Item>)
    ensures
        skipped_back(*old(iter), n, *final(iter), item),
{
    iter.nth_back(n)
}

/// The bounds on how many items `iter` has left, as `Iterator::size_hint` gives them. Nothing
/// is claimed of the bounds.
#[verifier::external_body]
fn iter_size_hint<T: Iterator>(iter: &T) -> (usize, Option<usize>) {
    iter.size_hint()
}

/// `hint` is what `Iterator::size_hint` gave for `iter`.
pub closed spec fn sized<T: Iterator>(iter: T, hint: (usize, Option<usize>)) -> bool {
    call_ensures(iter_size_hint::<T>, (&iter,), hint)
}

/// The operation that advances an iterator from the front: by one item where it carries
/// nothing, or past as many items as it carries and by one more.
pub struct IteratorImp(pub Option<usize>);

impl IteratorImp {
    /// `after` and `item` are what the method of `Iterator` which the operation names made of
    /// the iterator `before` and gave.
    pub open spec fn advanced<T: Iterator>(self, before: T, after: T, item: Option<T::Item>) -> bool {
        match self.0 {
            None => stepped(before, after, item),
            Some(n) => skipped(before, n, after, item),
        }
    }

    /// Advances an iterator held by value through the method of `Iterator` that the operation
    /// names, and gives the iterator back with the item.
    pub fn advance<T: Iterator>(self, iter: T) -> (r: (T, Option<T::Item>))
        ensures
            self.advanced(iter, r.0, r.1),
    {
        match self.0 {
            None => iter_next_owned(iter),
            Some(n) => iter_nth_owned(iter, n),
        }
    }
}

impl<T: Iterator> FuncMut<T> for IteratorImp {
    type Output = Option<T::Item>;

    open spec fn called_mut(self, before: T, after: T, out: Option<T::Item>) -> bool {
        self.advanced(before, after, out)
    }

    fn call_mut(self, value: &mut T) -> (out: Option<T::Item>) {
        match self.0 {
            None => iter_next(value),
            Some(n) => iter_nth(value, n),
        }
    }
}

/// The operation that advances an iterator from the back: by one item where it carries
/// nothing, or past as many items as it carries and by one more.
pub struct DoubleEndedIteratorImp(pub Option<usize>);

impl DoubleEndedIteratorImp {
    /// `after` and `item` are what the method of `DoubleEndedIterator` which the operation
    /// names made of the iterator `before` and gave.
    pub open spec fn advanced<T: DoubleEndedIterator>(
        self,
        before: T,
        after: T,
        item: Option<T::Item>,
    ) -> bool {
        match self.0 {
            None => stepped_back(before, after, item),
            Some(n) => skipped_back(before, n, after, item),
        }
    }

    /// Advances an iterator held by value through the method of `DoubleEndedIterator` that
    /// the operation names, and gives the iterator back with the item.
    pub fn advance<T: DoubleEndedIterator>(self, iter: T) -> (r: (T, Option<T::Item>))
        ensures
            self.advanced(iter, r.0, r.1),
    {
        match self.0 {
            None => iter_next_back_owned(iter),
            Some(n) => iter_nth_back_owned(iter, n),
        }
    }
}

impl<T: DoubleEndedIterator> FuncMut<T> for DoubleEndedIteratorImp {
    type Output = Option<T::Item>;

    open spec fn called_mut(self, before: T, after: T, out: Option<T::Item>) -> bool {
        self.advanced(before, after, out)
    }

    fn call_mut(self, value: &mut T) -> (out: Option<T::Item>) {
        match self.0 {
            None => iter_next_back(value),
            Some(n) => iter_nth_back(value, n),
        }
    }
}

/// The operation that asks an iterator how many items it has left.
pub struct IteratorSizeImp;

impl<T: Iterator> Func<T> for IteratorSizeImp {
    type Output = (usize, Option<usize>);

    open spec fn called(self, value: T, out: (usize, Option<usize>)) -> bool {
        sized(value, out)
    }

    fn call(self, value: &T) -> (out: (usize, Option<usize>)) {
        iter_size_hint(value)
    }
}

impl<L: TypeList, S: AllocStrategy<L>> Vari<L, S> {
    /// Advances the held iterator by one item: the item is the one that `Iterator::next` of
    /// the held alternative gives, and the held iterator is what it has made of it. The cell
    /// goes on to hold an iterator of the same alternative in the same storage.
    pub fn next(&mut self) -> (r: <L as ApplyMut<IteratorImp>>::Output) where
        L: ApplyMut<IteratorImp>,

        requires
            old(self).inv(),
        ensures
            <L as ApplyMut<IteratorImp>>::applied_mut(
                old(self)@,
                final(self)@,
                IteratorImp(None),
                r,
            ),
            final(self).inv(),
            final(self)@.tag() == old(self)@.tag(),
            final(self).addr() == old(self).addr(),
            final(self).spec_strategy() == old(self).spec_strategy(),
    {
        self.apply_mut(IteratorImp(None))
    }

    /// Advances the held iterator past `n` items and by one more, as `Iterator::nth` of the
    /// held alternative does. The cell goes on to hold an iterator of the same alternative in
    /// the same storage.
    pub fn nth(&mut self, n: usize) -> (r: <L as ApplyMut<IteratorImp>>::Output) where
        L: ApplyMut<IteratorImp>,

        requires
            old(self).inv(),
        ensures
            <L as ApplyMut<IteratorImp>>::applied_mut(
                old(self)@,
                final(self)@,
                IteratorImp(Some(n)),
                r,
            ),
            final(self).inv(),
            final(self)@.tag() == old(self)@.tag(),
            final(self).addr() == old(self).addr(),
            final(self).spec_strategy() == old(self).spec_strategy(),
    {
        self.apply_mut(IteratorImp(Some(n)))
    }

    /// Advances the held iterator by one item from the back, as
    /// `DoubleEndedIterator::next_back` of the held alternative does. The cell goes on to hold
    /// an iterator of the same alternative in the same storage.
    pub fn next_back(&mut self) -> (r: <L as ApplyMut<DoubleEndedIteratorImp>>::Output) where
        L: ApplyMut<DoubleEndedIteratorImp>,

        requires
            old(self).inv(),
        ensures
            <L as ApplyMut<DoubleEndedIteratorImp>>::applied_mut(
                old(self)@,
                final(self)@,
                DoubleEndedIteratorImp(None),
                r,
            ),
            final(self).inv(),
            final(self)@.tag() == old(self)@.tag(),
            final(self).addr() == old(self).addr(),
            final(self).spec_strategy() == old(self).spec_strategy(),
    {
        self.apply_mut(DoubleEndedIteratorImp(None))
    }

    /// Advances the held iterator past `n` items from the back and by one more, as
    /// `DoubleEndedIterator::nth_back` of the held alternative does. The cell goes on to hold
    /// an iterator of the same alternative in the same storage.
    pub fn nth_back(&mut self, n: usize) -> (r: <L as ApplyMut<DoubleEndedIteratorImp>>::Output) where
        L: ApplyMut<DoubleEndedIteratorImp>,

        requires
            old(self).inv(),
        ensures
            <L as ApplyMut<DoubleEndedIteratorImp>>::applied_mut(
                old(self)@,
                final(self)@,
                DoubleEndedIteratorImp(Some(n)),
                r,
            ),
            final(self).inv(),
            final(self)@.tag() == old(self)@.tag(),
            final(self).addr() == old(self).addr(),
            final(self).spec_strategy() == old(self).spec_strategy(),
    {
        self.apply_mut(DoubleEndedIteratorImp(Some(n)))
    }

    /// The bounds on how many items the held iterator has left: the ones that
    /// `Iterator::size_hint` of the held alternative gives.
    pub fn size_hint(&self) -> (r: <L as Apply<IteratorSizeImp>>::Output) where
        L: Apply<IteratorSizeImp>,

        requires
            self.inv(),
        ensures
            <L as Apply<IteratorSizeImp>>::applied(self@, IteratorSizeImp, r),
    {
        self.apply(IteratorSizeImp)
    }
}

} // verus!
