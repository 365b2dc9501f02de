//! A cell that holds exactly one value out of a closed set of alternatives, with the tag of
//! the held alternative packed into the low bits of the address of its storage.
//!
//! The cell keeps the value itself, a tagged word, and its storage policy. The storage is a
//! block in a [`heap::Heap`], or no block at all where the held alternative needs no memory.
//! Every operation says what it does to the value, to the tag, and to the books of the heap.
pub mod convert;
pub mod dispatch;
pub mod hash;
pub mod heap;
pub mod imp;
pub mod internals;
pub mod iter;
pub mod laws;
pub mod layout;
pub mod order;
pub mod pin;
pub mod strategy;
pub mod tag;

use crate::convert::{IntoSuperSet, TryIntoSubSet};
use crate::heap::{Heap, HeapView};
use crate::internals::{Contains, GetAny, Peano, Tuple, TypeList};
use crate::layout::{is_aligned, Layout};
use crate::strategy::{AllocStrategy, BiggestVariant, DefaultStrategy};
use crate::tag::{count_fits, spec_align, spec_pack, spec_split};
use vstd::prelude::*;

verus! {

/// A cell over the alternatives `L`, whose storage follows the policy `S`.
pub struct Vari<L: TypeList, S: AllocStrategy<L> = DefaultStrategy> {
    tagged_ptr: usize,
    value: L,
    strategy: S,
}

impl<L: TypeList, S: AllocStrategy<L>> View for Vari<L, S> {
    type V = L;

    /// The value that the cell holds, as a value of the list of alternatives.
    closed spec fn view(&self) -> L {
        self.value
    }
}

impl<L: TypeList> Vari<L> {
    /// A cell that holds `value`, with the default policy.
    pub fn new<N, V>(value: V, heap: &mut Heap) -> (r: Self) where L: Contains<V, N>, N: Peano
        requires
            count_fits(L::spec_count()),
            old(heap).wf(),
            old(heap)@.has_room_if_sized(
                <BiggestVariant as AllocStrategy<L>>::spec_layout(N::spec_value()),
            ),
        ensures
            r.wf(final(heap)),
            r@ == <L as Contains<V, N>>::inject(value),
            r@.tag() == N::spec_value(),
            r.spec_strategy() == BiggestVariant,
            r.fresh_in(old(heap)@, final(heap)@),
    {
        let r = Self::new_with(move || -> (v: V) ensures v == value { value }, heap);
        proof {
            <L as Contains<V, N>>::lemma_project(&r@);
        }
        r
    }

    /// A cell that holds what `value` produces, with the default policy.
    pub fn new_with<N, V, F: FnOnce() -> V>(value: F, heap: &mut Heap) -> (r: Self) where
        L: Contains<V, N>,
        N: Peano,

        requires
            value.requires(()),
            count_fits(L::spec_count()),
            old(heap).wf(),
            old(heap)@.has_room_if_sized(
                <BiggestVariant as AllocStrategy<L>>::spec_layout(N::spec_value()),
            ),
        ensures
            r.wf(final(heap)),
            r.holds_product_of::<N, V, F>(value),
            r@.tag() == N::spec_value(),
            r.spec_strategy() == BiggestVariant,
            r.fresh_in(old(heap)@, final(heap)@),
    {
        Self::with_strategy(value, BiggestVariant, heap)
    }
}

impl<L: TypeList, S: AllocStrategy<L>> Vari<L, S> {
    /// The address of the cell's storage.
    pub closed spec fn addr(&self) -> usize {
        spec_split(self.tagged_ptr, (spec_align(L::spec_count()) - 1) as usize).0
    }

    /// The layout of the cell's storage: what the policy asks for the held alternative.
    pub open spec fn layout(&self) -> Layout {
        S::spec_layout(self@.tag())
    }

    /// The cell is consistent in itself: it holds an alternative of its list, and its word
    /// holds that alternative's tag and a nonzero address aligned for the tags.
    pub closed spec fn inv(&self) -> bool {
        let align = spec_align(L::spec_count()) as usize;
        &&& count_fits(L::spec_count())
        &&& self.value.proper()
        &&& self.tagged_ptr == spec_pack(self.addr(), self.value.tag() as usize)
        &&& spec_split(self.tagged_ptr, (align - 1) as usize) == (
            self.addr(),
            self.value.tag() as usize,
        )
        &&& self.addr() != 0
        &&& is_aligned(self.addr(), align)
        &&& self.layout().valid()
        &&& self.layout().align >= align
    }

    /// The cell is consistent and its storage is in `heap`.
    pub open spec fn wf(&self, heap: &Heap) -> bool {
        &&& self.inv()
        &&& heap.wf()
        &&& heap@.backs(self.addr(), self.layout())
    }

    /// The cell's storage is where fresh storage goes in the heap `before`: a block at the
    /// heap's next address, or, where the layout needs no memory, no block at the address
    /// `sentinel`.
    pub open spec fn placed(&self, before: HeapView, sentinel: usize) -> bool {
        if self.layout().size != 0 {
            self.addr() == before.next_addr(self.layout())
        } else {
            self.addr() == sentinel
        }
    }

    /// The address that stands for storage without memory in a cell over `L`: the alignment
    /// of the tags of `L`.
    pub open spec fn spec_sentinel() -> usize {
        spec_align(L::spec_count()) as usize
    }

    /// The cell's storage was obtained between `before` and `after`, where fresh storage
    /// goes, and nothing else happened to the heap.
    pub open spec fn fresh_in(&self, before: HeapView, after: HeapView) -> bool {
        &&& after == before.after_acquire(self.addr(), self.layout())
        &&& self.layout().size != 0 ==> !before.live.dom().contains(self.addr())
        &&& self.placed(before, Self::spec_sentinel())
    }

    /// The cell holds, as its alternative at `N`, something that `value` may produce.
    pub open spec fn holds_product_of<N, V, F: FnOnce() -> V>(&self, value: F) -> bool where
        L: Contains<V, N>,
        N: Peano,
     {
        &&& <L as Contains<V, N>>::project(&self@) is Some
        &&& value.ensures((), <L as Contains<V, N>>::project(&self@)->Some_0)
    }

    /// What holds of every consistent cell.
    pub proof fn lemma_inv(&self)
        requires
            self.inv(),
        ensures
            count_fits(L::spec_count()),
            self@.proper(),
            self@.tag() < L::spec_count(),
            self.addr() != 0,
            is_aligned(self.addr(), spec_align(L::spec_count()) as usize),
            self.layout().valid(),
    {
        self.value.lemma_tag_in_range();
    }

    /// The number of low bits of the cell's word that hold the tag.
    pub fn tag_bits() -> (k: u32)
        requires
            count_fits(L::spec_count()),
        ensures
            k == crate::tag::spec_size_class(L::spec_count()),
    {
        L::size_class()
    }

    /// A cell that holds `value`, with the policy `strategy`.
    pub fn using_strategy<N, V>(value: V, strategy: S, heap: &mut Heap) -> (r: Self) where
        L: Contains<V, N>,
        N: Peano,

        requires
            count_fits(L::spec_count()),
            old(heap).wf(),
            old(heap)@.has_room_if_sized(S::spec_layout(N::spec_value())),
        ensures
            r.wf(final(heap)),
            r@ == <L as Contains<V, N>>::inject(value),
            r@.tag() == N::spec_value(),
            r.spec_strategy() == strategy,
            r.fresh_in(old(heap)@, final(heap)@),
    {
        let r = Self::with_strategy(move || -> (v: V) ensures v == value { value }, strategy, heap);
        proof {
            <L as Contains<V, N>>::lemma_project(&r@);
        }
        r
    }

    /// A cell that holds what `value` produces, with the policy `strategy`.
    ///
    /// The storage is obtained first, and the value is produced then.
    pub fn with_strategy<N, V, F>(value: F, strategy: S, heap: &mut Heap) -> (r: Self) where
        F: FnOnce() -> V,
        L: Contains<V, N>,
        N: Peano,

        requires
            value.requires(()),
            count_fits(L::spec_count()),
            old(heap).wf(),
            old(heap)@.has_room_if_sized(S::spec_layout(N::spec_value())),
        ensures
            r.wf(final(heap)),
            r.holds_product_of::<N, V, F>(value),
            r@.tag() == N::spec_value(),
            r.spec_strategy() == strategy,
            r.fresh_in(old(heap)@, final(heap)@),
    {
        let produce = move || -> (p: Result<V, ()>)
            requires
                value.requires(()),
            ensures
                p is Ok,
                value.ensures((), p->Ok_0),
            { Ok(value()) };
        match Self::try_with_strategy::<N, V, (), _>(produce, strategy, heap) {
            Ok(cell) => cell,
            Err(_) => vstd::pervasive::unreached(),
        }
    }

    /// A cell that holds what `value` produces, with the policy `strategy`, unless `value`
    /// fails.
    ///
    /// The storage is obtained first, and the value is produced then. If the producer fails,
    /// the storage is given up again: no block is live that was not live before.
    pub fn try_with_strategy<N, V, E, F>(value: F, strategy: S, heap: &mut Heap) -> (r: Result<
        Self,
        E,
    >) where F: FnOnce() -> Result<V, E>, L: Contains<V, N>, N: Peano
        requires
            value.requires(()),
            count_fits(L::spec_count()),
            old(heap).wf(),
            old(heap)@.has_room_if_sized(S::spec_layout(N::spec_value())),
        ensures
            final(heap).wf(),
            r is Ok ==> {
                &&& r->Ok_0.wf(final(heap))
                &&& <L as Contains<V, N>>::project(&r->Ok_0@) is Some
                &&& value.ensures((), Ok(<L as Contains<V, N>>::project(&r->Ok_0@)->Some_0))
                &&& r->Ok_0@.tag() == N::spec_value()
                &&& r->Ok_0.spec_strategy() == strategy
                &&& r->Ok_0.fresh_in(old(heap)@, final(heap)@)
            },
            r is Err ==> {
                &&& value.ensures((), Err(r->Err_0))
                &&& final(heap)@ == old(heap)@.after_wasted(S::spec_layout(N::spec_value()))
            },
    {
        proof {
            <L as Contains<V, N>>::lemma_position();
        }
        let index: usize = N::value();
        match crate::internals::new_with::<L, S, V, E, F>(
            value,
            L::align(),
            index,
            &strategy,
            heap,
        ) {
            Ok((tagged_ptr, v)) => {
                proof {
                    <L as Contains<V, N>>::lemma_inject(v);
                }
                Ok(Vari { tagged_ptr, value: <L as Contains<V, N>>::new(v), strategy })
            },
            Err(e) => Err(e),
        }
    }

    /// The policy that the cell was made with.
    pub closed spec fn spec_strategy(&self) -> S {
        self.strategy
    }

    /// The policy that the cell was made with: the way to ask which storage an overwrite or
    /// a conversion would need.
    pub fn strategy(&self) -> (s: &S)
        ensures
            *s == self.spec_strategy(),
    {
        &self.strategy
    }

    /// The address of the cell's storage and the tag of the held alternative, taken out of the
    /// cell's word.
    pub fn split(&self) -> (r: (usize, usize))
        requires
            self.inv(),
        ensures
            r.0 == self.addr(),
            r.1 == self@.tag(),
    {
        proof {
            self.lemma_inv();
        }
        crate::tag::split(self.tagged_ptr, L::align() - 1)
    }

    /// The address of the cell's storage.
    pub fn as_ptr(&self) -> (r: usize)
        requires
            self.inv(),
        ensures
            r == self.addr(),
    {
        self.split().0
    }

    /// The tag of the held alternative.
    pub fn index(&self) -> (r: usize)
        requires
            self.inv(),
        ensures
            r == self@.tag(),
            r < L::spec_count(),
    {
        proof {
            self.lemma_inv();
        }
        self.split().1
    }

    /// The tag of the alternative `A`.
    pub fn index_of<A, N>() -> (r: usize) where L: Contains<A, N>, N: Peano
        requires
            L::spec_count() <= usize::MAX,
        ensures
            r == N::spec_value(),
            r < L::spec_count(),
    {
        proof {
            <L as Contains<A, N>>::lemma_position();
        }
        N::value()
    }

    /// Whether the cell holds the alternative `A`.
    pub fn is<A, N>(&self) -> (r: bool) where L: Contains<A, N>, N: Peano
        requires
            self.inv(),
        ensures
            r == (self@.tag() == N::spec_value()),
            r == <L as Contains<A, N>>::project(&self@) is Some,
    {
        proof {
            self.lemma_inv();
            <L as Contains<A, N>>::lemma_position();
            <L as Contains<A, N>>::lemma_project(&self.value);
        }
        N::value() == self.index()
    }

    /// The held value, which is of the alternative `A`.
    pub fn get<A, N>(&self) -> (r: &A) where L: Contains<A, N>, N: Peano
        requires
            self.inv(),
            self@.tag() == N::spec_value(),
        ensures
            self@ == <L as Contains<A, N>>::inject(*r),
            <L as Contains<A, N>>::project(&self@) == Some(*r),
    {
        proof {
            <L as Contains<A, N>>::lemma_project(&self.value);
        }
        match <L as Contains<A, N>>::get(&self.value) {
            Some(value) => value,
            None => vstd::pervasive::unreached(),
        }
    }

    /// The held value, if it is of the alternative `A`.
    pub fn try_get<A, N>(&self) -> (r: Option<&A>) where L: Contains<A, N>, N: Peano
        requires
            self.inv(),
        ensures
            r is Some <==> self@.tag() == N::spec_value(),
            r is Some ==> self@ == <L as Contains<A, N>>::inject(*r->Some_0),
            r is Some ==> <L as Contains<A, N>>::project(&self@) == Some(*r->Some_0),
    {
        proof {
            <L as Contains<A, N>>::lemma_project(&self.value);
        }
        if self.is::<A, N>() {
            <L as Contains<A, N>>::get(&self.value)
        } else {
            None
        }
    }

    /// The held value by reference, as a value of the list of references to the
    /// alternatives: the way to look at the held value without naming its alternative.
    pub fn get_any<'a>(&'a self) -> (r: <L as GetAny<'a>>::Ref) where L: GetAny<'a>
        requires
            self.inv(),
        ensures
            r == <L as GetAny<'a>>::spec_get_any(&self@),
            r.proper(),
            r.tag() == self@.tag(),
    {
        proof {
            <L as GetAny<'a>>::lemma_get_any(&self.value);
        }
        <L as GetAny<'a>>::get_any(&self.value)
    }

    /// The held value by exclusive reference, as a value of the list of exclusive references
    /// to the alternatives: the way to change the held value without naming its alternative.
    /// Tag, storage and policy stay as they are.
    pub fn get_any_mut<'a>(&'a mut self) -> (r: <L as GetAny<'a>>::RefMut) where L: GetAny<'a>
        requires
            old(self).inv(),
        ensures
            r.proper(),
            r.tag() == old(self)@.tag(),
            <L as GetAny<'a>>::spec_referred(r) == old(self)@,
            final(self).inv(),
            final(self)@.tag() == old(self)@.tag(),
            final(self).addr() == old(self).addr(),
            final(self).spec_strategy() == old(self).spec_strategy(),
    {
        proof {
            self.lemma_inv();
        }
        <L as GetAny<'a>>::get_any_mut(&mut self.value)
    }

    /// Access to the held value, which is of the alternative `A`. What is written through the
    /// reference becomes the held value; tag and storage stay as they are.
    pub fn get_mut<A, N>(&mut self) -> (r: &mut A) where L: Contains<A, N>, N: Peano
        requires
            old(self).inv(),
            old(self)@.tag() == N::spec_value(),
        ensures
            <L as Contains<A, N>>::project(&old(self)@) == Some(*r),
            final(self)@ == <L as Contains<A, N>>::inject(*final(r)),
            final(self).inv(),
            final(self).addr() == old(self).addr(),
            final(self)@.tag() == old(self)@.tag(),
            final(self).spec_strategy() == old(self).spec_strategy(),
    {
        proof {
            <L as Contains<A, N>>::lemma_project(&self.value);
        }
        match <L as Contains<A, N>>::get_mut(&mut self.value) {
            Some(value) => {
                proof {
                    <L as Contains<A, N>>::lemma_inject(*final(value));
                }
                value
            },
            None => vstd::pervasive::unreached(),
        }
    }

    /// Access to the held value, if it is of the alternative `A`. What is written through the
    /// reference becomes the held value; tag and storage stay as they are.
    pub fn try_get_mut<A, N>(&mut self) -> (r: Option<&mut A>) where L: Contains<A, N>, N: Peano
        requires
            old(self).inv(),
        ensures
            r is Some <==> old(self)@.tag() == N::spec_value(),
            r is Some ==> <L as Contains<A, N>>::project(&old(self)@) == Some(*r->Some_0),
            r is Some ==> final(self)@ == <L as Contains<A, N>>::inject(*final(r->Some_0)),
            r is None ==> final(self)@ == old(self)@,
            final(self).inv(),
            final(self).addr() == old(self).addr(),
            final(self)@.tag() == old(self)@.tag(),
            final(self).spec_strategy() == old(self).spec_strategy(),
    {
        if self.is::<A, N>() {
            Some(self.get_mut::<A, N>())
        } else {
            None
        }
    }

    /// What an overwrite with the alternative at `target` did to the cell `before` and to the
    /// heap, where it made `self` of it: the storage stayed where the old and the new layout
    /// are the same, and was exchanged where they differ.
    pub open spec fn overwritten(
        &self,
        target: nat,
        before: &Self,
        heap_before: HeapView,
        heap_after: HeapView,
    ) -> bool {
        &&& self@.tag() == target
        &&& if before.layout() == S::spec_layout(target) {
            &&& self.addr() == before.addr()
            &&& heap_after == heap_before
        } else {
            &&& self.layout().size != 0 ==> !heap_before.live.dom().contains(self.addr())
            &&& heap_after == heap_before.after_exchange(
                self.addr(),
                self.layout(),
                before.addr(),
                before.layout(),
            )
        }
    }

    /// What a failed overwrite with the alternative at `target` did to the heap: nothing where
    /// the storage would have stayed, and where it would have been exchanged, the new storage
    /// was obtained and given up again.
    pub open spec fn overwrite_failed(
        &self,
        target: nat,
        heap_before: HeapView,
        heap_after: HeapView,
    ) -> bool {
        if self.layout() == S::spec_layout(target) {
            heap_after == heap_before
        } else {
            heap_after == heap_before.after_wasted(S::spec_layout(target))
        }
    }

    /// Where the storage was exchanged since the cell was `before`, the new storage is where
    /// fresh storage goes in the heap `heap_before`: a block at the heap's next address, or,
    /// where the layout needs no memory, no block at the address `sentinel`.
    pub open spec fn exchanged_to(
        &self,
        before: &Self,
        heap_before: HeapView,
        sentinel: usize,
    ) -> bool {
        before.layout() != self.layout() ==> self.placed(heap_before, sentinel)
    }

    /// The storage that an overwrite with the alternative at `target` may need can be had.
    pub open spec fn can_overwrite(&self, target: nat, heap: HeapView) -> bool {
        self.layout() != S::spec_layout(target) ==> heap.has_room_if_sized(S::spec_layout(target))
    }

    /// Overwrites the held value with `value`.
    pub fn set<N, A>(&mut self, value: A, heap: &mut Heap) where L: Contains<A, N>, N: Peano
        requires
            old(self).wf(old(heap)),
            old(self).can_overwrite(N::spec_value(), old(heap)@),
        ensures
            final(self).wf(final(heap)),
            final(self)@ == <L as Contains<A, N>>::inject(value),
            final(self).overwritten(N::spec_value(), old(self), old(heap)@, final(heap)@),
            final(self).exchanged_to(old(self), old(heap)@, Self::spec_sentinel()),
            final(self).spec_strategy() == old(self).spec_strategy(),
    {
        self.set_with::<N, A, _>(move || -> (v: A) ensures v == value { value }, heap);
        proof {
            <L as Contains<A, N>>::lemma_project(&self@);
        }
    }

    /// Overwrites the held value with what `value` produces.
    pub fn set_with<N, A, F>(&mut self, value: F, heap: &mut Heap) where
        F: FnOnce() -> A,
        L: Contains<A, N>,
        N: Peano,

        requires
            value.requires(()),
            old(self).wf(old(heap)),
            old(self).can_overwrite(N::spec_value(), old(heap)@),
        ensures
            final(self).wf(final(heap)),
            final(self).holds_product_of::<N, A, F>(value),
            final(self).overwritten(N::spec_value(), old(self), old(heap)@, final(heap)@),
            final(self).exchanged_to(old(self), old(heap)@, Self::spec_sentinel()),
            final(self).spec_strategy() == old(self).spec_strategy(),
    {
        let produce = move || -> (p: Result<A, ()>)
            requires
                value.requires(()),
            ensures
                p is Ok,
                value.ensures((), p->Ok_0),
            { Ok(value()) };
        match self.try_set_with::<N, A, (), _>(produce, heap) {
            Ok(()) => {},
            Err(_) => {
                assert(false);
            },
        }
    }

    /// Overwrites the held value with what `value` produces, unless `value` fails.
    ///
    /// Where the policy lets the storage be reused, the new value is produced while the old
    /// one is still in place, and only then takes its place. Otherwise storage for the new
    /// value is obtained first, the value is produced, and only then the old value ends and
    /// its storage is given up. If the producer fails, the cell is as it was, and no block is
    /// live that was not live before.
    pub fn try_set_with<N, A, E, F>(&mut self, value: F, heap: &mut Heap) -> (r: Result<(), E>) where
        F: FnOnce() -> Result<A, E>,
        L: Contains<A, N>,
        N: Peano,

        requires
            value.requires(()),
            old(self).wf(old(heap)),
            old(self).can_overwrite(N::spec_value(), old(heap)@),
        ensures
            final(self).wf(final(heap)),
            r is Ok ==> {
                &&& <L as Contains<A, N>>::project(&final(self)@) is Some
                &&& value.ensures((), Ok(<L as Contains<A, N>>::project(&final(self)@)->Some_0))
                &&& final(self).overwritten(N::spec_value(), old(self), old(heap)@, final(heap)@)
                &&& final(self).exchanged_to(old(self), old(heap)@, Self::spec_sentinel())
            },
            final(self).spec_strategy() == old(self).spec_strategy(),
            r is Err ==> {
                &&& value.ensures((), Err(r->Err_0))
                &&& final(self)@ == old(self)@
                &&& final(self).addr() == old(self).addr()
                &&& old(self).overwrite_failed(N::spec_value(), old(heap)@, final(heap)@)
                &&& final(heap)@.live == old(heap)@.live
            },
    {
        proof {
            self.lemma_inv();
            <L as Contains<A, N>>::lemma_position();
        }
        let (ptr, index) = self.split();
        let target: usize = N::value();
        let align: usize = L::align();
        if self.strategy.matches_index_layout(index, target) {
            match value() {
                Ok(v) => {
                    proof {
                        <L as Contains<A, N>>::lemma_inject(v);
                    }
                    self.tagged_ptr = crate::tag::pack(ptr, target, align);
                    self.value = <L as Contains<A, N>>::new(v);
                    Ok(())
                },
                Err(e) => Err(e),
            }
        } else {
            let old_layout = self.strategy.layout(index);
            match crate::internals::new_with::<L, S, A, E, F>(
                value,
                align,
                target,
                &self.strategy,
                heap,
            ) {
                Ok((tagged_ptr, v)) => {
                    proof {
                        <L as Contains<A, N>>::lemma_inject(v);
                    }
                    crate::internals::DeallocOnDrop(ptr, old_layout).release(heap);
                    self.tagged_ptr = tagged_ptr;
                    self.value = <L as Contains<A, N>>::new(v);
                    Ok(())
                },
                Err(e) => Err(e),
            }
        }
    }

    /// Takes the held value out of the cell and gives up the storage. The value lives on.
    pub fn into_inner(self, heap: &mut Heap) -> (r: L)
        requires
            self.wf(old(heap)),
        ensures
            r == self@,
            r.proper(),
            final(heap).wf(),
            final(heap)@ == old(heap)@.after_release(self.addr(), self.layout()),
    {
        proof {
            self.lemma_inv();
        }
        let (ptr, index) = self.split();
        let guard = crate::internals::DeallocOnDrop(ptr, self.strategy.layout(index));
        guard.release(heap);
        self.value
    }

    /// Ends the cell: the held value ends, and the storage is given up.
    pub fn destroy(self, heap: &mut Heap)
        requires
            self.wf(old(heap)),
        ensures
            final(heap).wf(),
            final(heap)@ == old(heap)@.after_release(self.addr(), self.layout()),
    {
        proof {
            self.lemma_inv();
        }
        let (ptr, index) = self.split();
        crate::internals::destroy::<L, S>(ptr, index, &self.strategy, self.value, heap);
    }

    /// What a conversion did to the storage and to the heap, where it made `to` of `self`.
    pub open spec fn converted_into<O: TypeList>(
        &self,
        to: &Vari<O, S>,
        heap_before: HeapView,
        heap_after: HeapView,
    ) -> bool where S: AllocStrategy<O> {
        spec_converted(
            self.addr(),
            self.layout(),
            to.addr(),
            to.layout(),
            Vari::<O, S>::spec_sentinel(),
            heap_before,
            heap_after,
        )
    }

    /// The storage that a conversion to the alternative of `O` at `target` may need can be
    /// had.
    pub open spec fn can_convert<O: TypeList>(&self, target: nat, heap: HeapView) -> bool where
        S: AllocStrategy<O>,
     {
        self.layout() != <S as AllocStrategy<O>>::spec_layout(target) ==> heap.has_room_if_sized(
            <S as AllocStrategy<O>>::spec_layout(target),
        )
    }

    /// Makes a cell over `O` of the parts of a cell over `L`: the storage at `ptr`, which
    /// backs the alternative of `L` at `index`, comes to back the alternative of `O` at
    /// `other_index`, which `value` holds. The storage stays if the layouts under the two
    /// lists are the same, and is exchanged otherwise.
    fn convert<O>(
        ptr: usize,
        index: usize,
        strategy: S,
        other_index: usize,
        value: O,
        heap: &mut Heap,
    ) -> (r: Vari<O, S>) where O: TypeList, S: AllocStrategy<O>
        requires
            ptr != 0,
            count_fits(L::spec_count()),
            index < L::spec_count(),
            count_fits(O::spec_count()),
            value.proper(),
            value.tag() == other_index,
            old(heap).wf(),
            old(heap)@.backs(ptr, <S as AllocStrategy<L>>::spec_layout(index as nat)),
            <S as AllocStrategy<L>>::spec_layout(index as nat) != <S as AllocStrategy<
                O,
            >>::spec_layout(other_index as nat) ==> old(heap)@.has_room_if_sized(
                <S as AllocStrategy<O>>::spec_layout(other_index as nat),
            ),
        ensures
            r.wf(final(heap)),
            r@ == value,
            r.spec_strategy() == strategy,
            r.layout() == <S as AllocStrategy<O>>::spec_layout(other_index as nat),
            spec_converted(
                ptr,
                <S as AllocStrategy<L>>::spec_layout(index as nat),
                r.addr(),
                r.layout(),
                Vari::<O, S>::spec_sentinel(),
                old(heap)@,
                final(heap)@,
            ),
    {
        proof {
            value.lemma_tag_in_range();
        }
        let layout = <S as AllocStrategy<L>>::layout(&strategy, index);
        let super_layout = <S as AllocStrategy<O>>::layout(&strategy, other_index);
        let align: usize = O::align();
        let tagged_ptr: usize = if layout == super_layout {
            let addr: usize = if layout.size != 0 {
                proof {
                    heap.lemma_live_block(ptr);
                    crate::layout::lemma_aligned_to_smaller(ptr, align, layout.align);
                }
                ptr
            } else if ptr & (align - 1) == 0 {
                ptr
            } else {
                crate::tag::sentinel(align)
            };
            crate::tag::pack(addr, other_index, align)
        } else {
            let dealloc = crate::internals::DeallocOnDrop(ptr, layout);
            let word: usize = match crate::internals::raw_new_with(
                nothing_to_produce,
                super_layout,
                align,
                other_index,
                heap,
            ) {
                Ok((word, _)) => word,
                Err(_) => vstd::pervasive::unreached(),
            };
            dealloc.release(heap);
            word
        };
        Vari { tagged_ptr, value, strategy }
    }

    /// The same cell over a list that has every alternative of this one. The held value and
    /// its alternative stay; the tag becomes the alternative's position in `O`.
    pub fn into_superset<O, I>(self, heap: &mut Heap) -> (r: Vari<O, S>) where
        O: TypeList,
        S: AllocStrategy<O>,
        L: IntoSuperSet<O, I>,

        requires
            self.wf(old(heap)),
            count_fits(O::spec_count()),
            self.can_convert::<O>(
                <L as IntoSuperSet<O, I>>::spec_convert_index(self@.tag()),
                old(heap)@,
            ),
        ensures
            r.wf(final(heap)),
            r@ == <L as IntoSuperSet<O, I>>::spec_into_super_set(self@),
            r@.tag() == <L as IntoSuperSet<O, I>>::spec_convert_index(self@.tag()),
            r.spec_strategy() == self.spec_strategy(),
            self.converted_into::<O>(&r, old(heap)@, final(heap)@),
    {
        proof {
            self.lemma_inv();
            <L as IntoSuperSet<O, I>>::lemma_into_super_set(self@);
            <L as IntoSuperSet<O, I>>::lemma_convert_index(self@.tag());
        }
        let (ptr, index) = self.split();
        let other_index = <L as IntoSuperSet<O, I>>::convert_index(index);
        let converted = <L as IntoSuperSet<O, I>>::into_super_set(self.value);
        Self::convert::<O>(ptr, index, self.strategy, other_index, converted, heap)
    }

    /// The same cell over a list that has some of the alternatives of this one, if the held
    /// alternative is among them; the cell itself, as it was, if not.
    pub fn try_into_subset<O, I>(self, heap: &mut Heap) -> (r: Result<Vari<O, S>, Self>) where
        O: TypeList,
        S: AllocStrategy<O>,
        L: TryIntoSubSet<O, I>,

        requires
            self.wf(old(heap)),
            count_fits(O::spec_count()),
            <L as TryIntoSubSet<O, I>>::spec_convert_index(self@.tag(), 0) is Some
                ==> self.can_convert::<O>(
                <L as TryIntoSubSet<O, I>>::spec_convert_index(self@.tag(), 0)->Some_0,
                old(heap)@,
            ),
        ensures
            final(heap).wf(),
            r is Ok <==> <L as TryIntoSubSet<O, I>>::spec_convert_index(self@.tag(), 0) is Some,
            r is Ok ==> {
                &&& r->Ok_0.wf(final(heap))
                &&& <L as TryIntoSubSet<O, I>>::spec_try_into_subset(self@) == Ok::<
                    O,
                    <L as TryIntoSubSet<O, I>>::Remainder,
                >(r->Ok_0@)
                &&& <L as TryIntoSubSet<O, I>>::spec_convert_index(self@.tag(), 0) == Some(
                    r->Ok_0@.tag(),
                )
                &&& r->Ok_0.spec_strategy() == self.spec_strategy()
                &&& self.converted_into::<O>(&r->Ok_0, old(heap)@, final(heap)@)
            },
            r is Err ==> {
                &&& r->Err_0 == self
                &&& final(heap)@ == old(heap)@
            },
    {
        proof {
            self.lemma_inv();
            <L as TryIntoSubSet<O, I>>::lemma_try_into_subset(self@, 0);
        }
        let (ptr, index) = self.split();
        match <L as TryIntoSubSet<O, I>>::convert_index(index, 0) {
            Some(sub_index) => {
                match <L as TryIntoSubSet<O, I>>::try_into_subset(self.value) {
                    Ok(converted) => Ok(
                        Self::convert::<O>(ptr, index, self.strategy, sub_index, converted, heap),
                    ),
                    Err(_) => vstd::pervasive::unreached(),
                }
            },
            None => Err(self),
        }
    }

    /// The cell over this list that comes of a cell over a list with some of its
    /// alternatives.
    pub fn from_subset<O, I>(vari: Vari<O, S>, heap: &mut Heap) -> (r: Self) where
        O: TypeList + IntoSuperSet<L, I>,
        S: AllocStrategy<O>,

        requires
            vari.wf(old(heap)),
            count_fits(L::spec_count()),
            vari.can_convert::<L>(
                <O as IntoSuperSet<L, I>>::spec_convert_index(vari@.tag()),
                old(heap)@,
            ),
        ensures
            r.wf(final(heap)),
            r@ == <O as IntoSuperSet<L, I>>::spec_into_super_set(vari@),
            r@.tag() == <O as IntoSuperSet<L, I>>::spec_convert_index(vari@.tag()),
            r.spec_strategy() == vari.spec_strategy(),
            vari.converted_into::<L>(&r, old(heap)@, final(heap)@),
    {
        vari.into_superset::<L, I>(heap)
    }

    /// The cell over this list that comes of a cell over a list with more alternatives, if
    /// the held alternative is one of this list; the cell itself, as it was, if not.
    pub fn try_from_superset<O, I>(vari: Vari<O, S>, heap: &mut Heap) -> (r: Result<
        Self,
        Vari<O, S>,
    >) where O: TypeList + TryIntoSubSet<L, I>, S: AllocStrategy<O>
        requires
            vari.wf(old(heap)),
            count_fits(L::spec_count()),
            <O as TryIntoSubSet<L, I>>::spec_convert_index(vari@.tag(), 0) is Some
                ==> vari.can_convert::<L>(
                <O as TryIntoSubSet<L, I>>::spec_convert_index(vari@.tag(), 0)->Some_0,
                old(heap)@,
            ),
        ensures
            final(heap).wf(),
            r is Ok <==> <O as TryIntoSubSet<L, I>>::spec_convert_index(vari@.tag(), 0) is Some,
            r is Ok ==> {
                &&& r->Ok_0.wf(final(heap))
                &&& <O as TryIntoSubSet<L, I>>::spec_try_into_subset(vari@) == Ok::<
                    L,
                    <O as TryIntoSubSet<L, I>>::Remainder,
                >(r->Ok_0@)
                &&& <O as TryIntoSubSet<L, I>>::spec_convert_index(vari@.tag(), 0) == Some(
                    r->Ok_0@.tag(),
                )
                &&& r->Ok_0.spec_strategy() == vari.spec_strategy()
                &&& vari.converted_into::<L>(&r->Ok_0, old(heap)@, final(heap)@)
            },
            r is Err ==> {
                &&& r->Err_0 == vari
                &&& final(heap)@ == old(heap)@
            },
    {
        vari.try_into_subset::<L, I>(heap)
    }
}

/// The producer for storage whose value is at hand already.
fn nothing_to_produce() -> (p: Result<(), ()>)
    ensures
        p is Ok,
{
    Ok(())
}

/// What a conversion did to the storage and to the heap. Where the old and the new layout
/// are the same, the storage at `from_addr` stayed and the heap was not touched; only
/// storage without memory whose address cannot carry the tags of the new list went to the
/// address `sentinel`, which can. Where the layouts differ, the storage was exchanged for
/// fresh storage at `to_addr`: a block at the heap's next address, or no block at `sentinel`.
pub open spec fn spec_converted(
    from_addr: usize,
    from: Layout,
    to_addr: usize,
    to: Layout,
    sentinel: usize,
    heap_before: HeapView,
    heap_after: HeapView,
) -> bool {
    if from == to {
        &&& from.size != 0 || is_aligned(from_addr, sentinel) ==> to_addr == from_addr
        &&& from.size == 0 && !is_aligned(from_addr, sentinel) ==> to_addr == sentinel
        &&& heap_after == heap_before
    } else {
        &&& to.size == 0 ==> to_addr == sentinel
        &&& to.size != 0 ==> to_addr == heap_before.next_addr(to)
        &&& to.size != 0 ==> !heap_before.live.dom().contains(to_addr)
        &&& heap_after == heap_before.after_exchange(to_addr, to, from_addr, from)
    }
}

} // verus!
