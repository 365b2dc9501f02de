//! What a pinned cell can do because every one of its alternatives can.
use crate::dispatch::{Apply, ApplyMut, ApplyWith};
use crate::hash::HashImp;
use crate::heap::Heap;
use crate::imp::PartialEqImp;
use crate::internals::{CloneImp, TypeList};
use crate::pin::PinVari;
use crate::strategy::AllocStrategy;
use crate::Vari;
use core::hash::Hasher;
use vstd::prelude::*;

verus! {

impl<L: CloneImp + TypeList, S: AllocStrategy<L>> PinVari<L, S> {
    /// A pinned cell of its own that holds a clone of the held value, as the same
    /// alternative.
    pub fn clone(&self, heap: &mut Heap) -> (r: Self)
        requires
            self.wf(old(heap)),
            old(heap)@.has_room_if_sized(self.layout()),
        ensures
            r.wf(final(heap)),
            self.wf(final(heap)),
            self@.spec_cloned(r@),
            r@.tag() == self@.tag(),
            cloned::<S>(self.spec_strategy(), r.spec_strategy()),
            r.cell().fresh_in(old(heap)@, final(heap)@),
    {
        PinVari(self.0.clone(heap))
    }

    /// Makes the cell hold a clone of what `source` holds, as the same alternative.
    pub fn clone_from(&mut self, source: &Self, heap: &mut Heap)
        requires
            old(self).wf(old(heap)),
            source.inv(),
            old(self).cell().can_overwrite(source@.tag(), old(heap)@),
        ensures
            final(self).wf(final(heap)),
            source@.spec_cloned(final(self)@),
            cloned::<S>(source.spec_strategy(), final(self).spec_strategy()),
            final(self).cell().overwritten(
                source@.tag(),
                &old(self).cell(),
                old(heap)@,
                final(heap)@,
            ),
            final(self).cell().exchanged_to(
                &old(self).cell(),
                old(heap)@,
                final(self).layout().align,
            ),
    {
        self.0.clone_from(&source.0, heap)
    }
}

impl<L: TypeList, S: AllocStrategy<L>> PinVari<L, S> {
    /// Calls `f` on a shared reference to the held value.
    pub fn apply<F>(&self, f: F) -> (out: <L as Apply<F>>::Output) where L: Apply<F>
        requires
            self.inv(),
        ensures
            <L as Apply<F>>::applied(self@, f, out),
    {
        self.0.apply::<F>(f)
    }

    /// Feeds the held value to `hasher`, and gives the hasher back: it is the hasher that
    /// `Hash::hash` of the held alternative has made of `hasher`.
    pub fn hash<H: Hasher>(&self, hasher: H) -> (r: H) where L: Apply<HashImp<H>, Output = H>
        requires
            self.inv(),
        ensures
            <L as Apply<HashImp<H>>>::applied(self@, HashImp(hasher), r),
    {
        self.0.hash(hasher)
    }

    /// Calls `f` on an exclusive reference to the held value. The cell goes on to hold the
    /// same alternative in the same storage, at the same address.
    ///
    /// This is the door for operations that act on the held value where it is, such as
    /// polling. It asks nothing of the alternatives, so an operation that moves the value out
    /// through the reference is not kept away: what the value then is, the contract says,
    /// but not that it is the one that was there.
    pub fn apply_mut<F>(&mut self, f: F) -> (out: <L as ApplyMut<F>>::Output) where L: ApplyMut<F>
        requires
            old(self).inv(),
        ensures
            <L as ApplyMut<F>>::applied_mut(old(self)@, final(self)@, f, out),
            final(self).inv(),
            final(self)@.tag() == old(self)@.tag(),
            final(self).addr() == old(self).addr(),
            final(self).spec_strategy() == old(self).spec_strategy(),
    {
        self.0.apply_mut::<F>(f)
    }

    /// Whether this cell and `other` hold the same alternative and the held values are equal
    /// as values of that alternative.
    pub fn eq(&self, other: &Self) -> (r: bool) where L: ApplyWith<PartialEqImp, Output = bool>
        requires
            self.inv(),
            other.inv(),
        ensures
            self@.tag() != other@.tag() ==> !r,
            self@.tag() == other@.tag() ==> <L as ApplyWith<PartialEqImp>>::applied_with(
                self@,
                other@,
                PartialEqImp,
                r,
            ),
    {
        self.0.eq(&other.0)
    }

    /// Whether this cell and the cell `other`, which is not pinned, hold the same alternative
    /// and the held values are equal as values of that alternative.
    pub fn eq_unpinned(&self, other: &Vari<L, S>) -> (r: bool) where
        L: ApplyWith<PartialEqImp, Output = bool>,

        requires
            self.inv(),
            other.inv(),
        ensures
            self@.tag() != other@.tag() ==> !r,
            self@.tag() == other@.tag() ==> <L as ApplyWith<PartialEqImp>>::applied_with(
                self@,
                other@,
                PartialEqImp,
                r,
            ),
    {
        self.0.eq(other)
    }
}

} // verus!
