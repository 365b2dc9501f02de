//! A cell that keeps its held value to itself.
//!
//! The wrapper gives out the held value by shared reference, and by exclusive reference or
//! as the cell itself only where every alternative may be moved freely. One door is open
//! beside these: an operation can be applied to the held value by exclusive reference. That
//! door is for operations that act on the value where it is, such as polling; the wrapper
//! cannot tell them from one that moves the value out, and takes no bound to keep it away.
//! The wrapper replaces the held value by a new one, in the same storage or in fresh storage.
//! The address of its storage changes only then: no other operation of the wrapper touches
//! it.
mod imp;
mod order;

use crate::heap::Heap;
use crate::internals::{CNil, CoProd, Contains, GetAny, Peano, Tuple, TypeList};
use crate::layout::Layout;
use crate::strategy::{AllocStrategy, DefaultStrategy};
use crate::Vari;
use vstd::prelude::*;

verus! {

/// Every alternative of the list may be moved freely.
pub trait UnpinTuple {

}

impl UnpinTuple for CNil {

}

impl<T: Unpin, R: UnpinTuple> UnpinTuple for CoProd<T, R> {

}

/// A cell over the alternatives `L` that keeps its held value to itself: the address of its
/// storage changes only when the held value is replaced.
pub struct PinVari<L: TypeList, S: AllocStrategy<L> = DefaultStrategy>(pub(crate) Vari<L, S>);

impl<L: TypeList, S: AllocStrategy<L>> View for PinVari<L, S> {
    type V = L;

    /// The value that the cell holds, as a value of the list of alternatives.
    closed spec fn view(&self) -> L {
        self.0@
    }
}

impl<L: TypeList, S: AllocStrategy<L>> Vari<L, S> {
    /// The same cell, which keeps its held value to itself from now on.
    pub fn pin(self) -> (r: PinVari<L, S>)
        ensures
            r@ == self@,
            r.addr() == self.addr(),
            r.inv() == self.inv(),
            r.cell() == self,
    {
        PinVari(self)
    }
}

impl<L: TypeList, S: AllocStrategy<L>> PinVari<L, S> {
    /// The cell that is pinned.
    pub closed spec fn cell(&self) -> Vari<L, S> {
        self.0
    }

    /// The address of the cell's storage.
    pub open spec fn addr(&self) -> usize {
        self.cell().addr()
    }

    /// The layout of the cell's storage: what the policy asks for the held alternative.
    pub open spec fn layout(&self) -> Layout {
        S::spec_layout(self@.tag())
    }

    /// The policy that the cell was made with.
    pub open spec fn spec_strategy(&self) -> S {
        self.cell().spec_strategy()
    }

    /// The cell is consistent in itself.
    pub open spec fn inv(&self) -> bool {
        self.cell().inv()
    }

    /// The cell is consistent and its storage is in `heap`.
    pub open spec fn wf(&self, heap: &Heap) -> bool {
        self.cell().wf(heap)
    }

    /// The cell, no longer pinned. Every alternative of the list may be moved freely, so
    /// nothing is lost.
    pub fn into_inner(self) -> (r: Vari<L, S>) where L: UnpinTuple
        ensures
            r == self.cell(),
    {
        self.0
    }

    /// The address of the cell's storage.
    pub fn as_ptr(&self) -> (r: usize)
        requires
            self.inv(),
        ensures
            r == self.addr(),
    {
        self.0.as_ptr()
    }

    /// The tag of the held alternative.
    pub fn index(&self) -> (r: usize)
        requires
            self.inv(),
        ensures
            r == self@.tag(),
            r < L::spec_count(),
    {
        self.0.index()
    }

    /// The tag of the alternative `A`.
    pub fn index_of<A, N>() -> (r: usize) where L: Contains<A, N>, N: Peano
        requires
            L::spec_count() <= usize::MAX,
        ensures
            r == N::spec_value(),
            r < L::spec_count(),
    {
        Vari::<L, S>::index_of::<A, N>()
    }

    /// Whether the cell holds the alternative `A`.
    pub fn is<A, N>(&self) -> (r: bool) where L: Contains<A, N>, N: Peano
        requires
            self.inv(),
        ensures
            r == (self@.tag() == N::spec_value()),
            r == <L as Contains<A, N>>::project(&self@) is Some,
    {
        self.0.is::<A, N>()
    }

    /// The held value, which is of the alternative `A`.
    pub fn get<A, N>(&self) -> (r: &A) where L: Contains<A, N>, N: Peano
        requires
            self.inv(),
            self@.tag() == N::spec_value(),
        ensures
            self@ == <L as Contains<A, N>>::inject(*r),
            <L as Contains<A, N>>::project(&self@) == Some(*r),
    {
        self.0.get::<A, N>()
    }

    /// The held value, if it is of the alternative `A`.
    pub fn try_get<A, N>(&self) -> (r: Option<&A>) where L: Contains<A, N>, N: Peano
        requires
            self.inv(),
        ensures
            r is Some <==> self@.tag() == N::spec_value(),
            r is Some ==> self@ == <L as Contains<A, N>>::inject(*r->Some_0),
            r is Some ==> <L as Contains<A, N>>::project(&self@) == Some(*r->Some_0),
    {
        self.0.try_get::<A, N>()
    }

    /// The held value by reference, as a value of the list of references to the
    /// alternatives: the way to look at the held value without naming its alternative.
    pub fn get_any<'a>(&'a self) -> (r: <L as GetAny<'a>>::Ref) where L: GetAny<'a>
        requires
            self.inv(),
        ensures
            r == <L as GetAny<'a>>::spec_get_any(&self@),
            r.proper(),
            r.tag() == self@.tag(),
    {
        self.0.get_any()
    }

    /// The held value by exclusive reference, as a value of the list of exclusive references
    /// to the alternatives. Every alternative of the list may be moved freely, so the access
    /// is exclusive.
    pub fn get_any_mut<'a>(&'a mut self) -> (r: <L as GetAny<'a>>::RefMut) where
        L: GetAny<'a> + UnpinTuple,

        requires
            old(self).inv(),
        ensures
            r.proper(),
            r.tag() == old(self)@.tag(),
            <L as GetAny<'a>>::spec_referred(r) == old(self)@,
            final(self).inv(),
            final(self)@.tag() == old(self)@.tag(),
            final(self).addr() == old(self).addr(),
            final(self).spec_strategy() == old(self).spec_strategy(),
    {
        self.0.get_any_mut()
    }

    /// Access to the held value, which is of the alternative `A`. Every alternative of the
    /// list may be moved freely, so the access is exclusive.
    pub fn get_mut<A, N>(&mut self) -> (r: &mut A) where
        L: Contains<A, N> + UnpinTuple,
        N: Peano,

        requires
            old(self).inv(),
            old(self)@.tag() == N::spec_value(),
        ensures
            <L as Contains<A, N>>::project(&old(self)@) == Some(*r),
            final(self)@ == <L as Contains<A, N>>::inject(*final(r)),
            final(self).inv(),
            final(self).addr() == old(self).addr(),
            final(self)@.tag() == old(self)@.tag(),
            final(self).spec_strategy() == old(self).spec_strategy(),
    {
        self.0.get_mut::<A, N>()
    }

    /// Access to the held value, if it is of the alternative `A`. Every alternative of the
    /// list may be moved freely, so the access is exclusive.
    pub fn try_get_mut<A, N>(&mut self) -> (r: Option<&mut A>) where
        L: Contains<A, N> + UnpinTuple,
        N: Peano,

        requires
            old(self).inv(),
        ensures
            r is Some <==> old(self)@.tag() == N::spec_value(),
            r is Some ==> <L as Contains<A, N>>::project(&old(self)@) == Some(*r->Some_0),
            r is Some ==> final(self)@ == <L as Contains<A, N>>::inject(*final(r->Some_0)),
            r is None ==> final(self)@ == old(self)@,
            final(self).inv(),
            final(self).addr() == old(self).addr(),
            final(self)@.tag() == old(self)@.tag(),
            final(self).spec_strategy() == old(self).spec_strategy(),
    {
        self.0.try_get_mut::<A, N>()
    }

    /// Overwrites the held value with `value`.
    pub fn set<N, A>(&mut self, value: A, heap: &mut Heap) where L: Contains<A, N>, N: Peano
        requires
            old(self).wf(old(heap)),
            old(self).cell().can_overwrite(N::spec_value(), old(heap)@),
        ensures
            final(self).wf(final(heap)),
            final(self)@ == <L as Contains<A, N>>::inject(value),
            final(self).cell().overwritten(
                N::spec_value(),
                &old(self).cell(),
                old(heap)@,
                final(heap)@,
            ),
            final(self).cell().exchanged_to(
                &old(self).cell(),
                old(heap)@,
                Vari::<L, S>::spec_sentinel(),
            ),
            final(self).spec_strategy() == old(self).spec_strategy(),
    {
        self.0.set::<N, A>(value, heap)
    }

    /// Ends the cell: the held value ends, and the storage is given up.
    pub fn destroy(self, heap: &mut Heap)
        requires
            self.wf(old(heap)),
        ensures
            final(heap).wf(),
            final(heap)@ == old(heap)@.after_release(self.addr(), self.layout()),
    {
        self.0.destroy(heap)
    }
}

} // verus!
