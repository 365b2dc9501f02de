//! What a cell can do because every one of its alternatives can: cloning, and the operations
//! that are applied to the held alternative.
use crate::dispatch::{Apply, ApplyMut, ApplyWith, FuncWith};
use crate::heap::Heap;
use crate::internals::{CloneImp, DeallocOnDrop, TypeList};
use crate::strategy::AllocStrategy;
use crate::Vari;
use vstd::prelude::*;
use vstd::std_specs::cmp::PartialEqSpec;

verus! {

impl<L: CloneImp + TypeList, S: AllocStrategy<L>> Vari<L, S> {
    /// A cell of its own that holds a clone of the held value, as the same alternative.
    pub fn clone(&self, heap: &mut Heap) -> (r: Self)
        requires
            self.wf(old(heap)),
            old(heap)@.has_room_if_sized(self.layout()),
        ensures
            r.wf(final(heap)),
            self.wf(final(heap)),
            self@.spec_cloned(r@),
            r@.tag() == self@.tag(),
            cloned::<S>(self.spec_strategy(), r.spec_strategy()),
            r.fresh_in(old(heap)@, final(heap)@),
    {
        proof {
            self.lemma_inv();
        }
        let (_, index) = self.split();
        let value = &self.value;
        let produce = || -> (p: Result<L, ()>)
            requires
                value.proper(),
            ensures
                p is Ok,
                value.spec_cloned(p->Ok_0),
            { Ok(CloneImp::clone(value)) };
        match crate::internals::new_with::<L, S, L, (), _>(
            produce,
            L::align(),
            index,
            &self.strategy,
            heap,
        ) {
            Ok((tagged_ptr, copy)) => {
                proof {
                    self.value.lemma_cloned(copy);
                }
                Vari { tagged_ptr, value: copy, strategy: self.strategy.clone() }
            },
            Err(_) => vstd::pervasive::unreached(),
        }
    }

    /// Makes the cell hold a clone of what `source` holds, as the same alternative.
    ///
    /// Where both hold the same alternative, the clone takes the place of the held value.
    /// Where the policy lets the storage be reused, the clone is made while the old value is
    /// still in place, and only then takes its place. Otherwise storage for the clone is
    /// obtained first, the clone is made, and only then the old value ends and its storage is
    /// given up.
    pub fn clone_from(&mut self, source: &Self, heap: &mut Heap)
        requires
            old(self).wf(old(heap)),
            source.inv(),
            old(self).can_overwrite(source@.tag(), old(heap)@),
        ensures
            final(self).wf(final(heap)),
            source@.spec_cloned(final(self)@),
            cloned::<S>(source.spec_strategy(), final(self).spec_strategy()),
            final(self).overwritten(source@.tag(), old(self), old(heap)@, final(heap)@),
            final(self).exchanged_to(old(self), old(heap)@, final(self).layout().align),
    {
        proof {
            self.lemma_inv();
            source.lemma_inv();
        }
        let (ptr, index) = self.split();
        let (_, src_index) = source.split();
        let align: usize = L::align();
        if src_index == index {
            CloneImp::clone_from(&mut self.value, &source.value);
            proof {
                source.value.lemma_cloned(self.value);
            }
        } else if self.strategy.matches_index_layout(index, src_index) {
            let copy = CloneImp::clone(&source.value);
            proof {
                source.value.lemma_cloned(copy);
            }
            self.tagged_ptr = crate::tag::pack(ptr, src_index, align);
            self.value = copy;
        } else {
            let old_layout = self.strategy.layout(index);
            let src_layout = self.strategy.layout(src_index);
            let value = &source.value;
            let produce = || -> (p: Result<L, ()>)
                requires
                    value.proper(),
                ensures
                    p is Ok,
                    value.spec_cloned(p->Ok_0),
                { Ok(CloneImp::clone(value)) };
            match crate::internals::new_with::<L, S, L, (), _>(
                produce,
                src_layout.align,
                src_index,
                &self.strategy,
                heap,
            ) {
                Ok((tagged_ptr, copy)) => {
                    proof {
                        source.value.lemma_cloned(copy);
                        let addr = crate::tag::spec_split(
                            tagged_ptr,
                            (src_layout.align - 1) as usize,
                        ).0;
                        crate::tag::lemma_align_is_power_of_two(L::spec_count());
                        crate::layout::lemma_aligned_to_smaller(addr, align, src_layout.align);
                        crate::tag::lemma_split_pack(addr, src_index, align);
                    }
                    DeallocOnDrop(ptr, old_layout).release(heap);
                    self.tagged_ptr = tagged_ptr;
                    self.value = copy;
                },
                Err(_) => {
                    assert(false);
                },
            }
        }
        self.strategy = source.strategy.clone();
    }
}

impl<L: TypeList, S: AllocStrategy<L>> Vari<L, S> {
    /// Calls `f` on a shared reference to the held value.
    pub fn apply<F>(&self, f: F) -> (out: <L as Apply<F>>::Output) where L: Apply<F>
        requires
            self.inv(),
        ensures
            <L as Apply<F>>::applied(self@, f, out),
    {
        proof {
            self.lemma_inv();
        }
        let (_, index) = self.split();
        <L as Apply<F>>::apply(&self.value, index, f)
    }

    /// Calls `f` on an exclusive reference to the held value. The cell goes on to hold the
    /// same alternative in the same storage.
    pub fn apply_mut<F>(&mut self, f: F) -> (out: <L as ApplyMut<F>>::Output) where L: ApplyMut<F>
        requires
            old(self).inv(),
        ensures
            <L as ApplyMut<F>>::applied_mut(old(self)@, final(self)@, f, out),
            final(self).inv(),
            final(self)@.tag() == old(self)@.tag(),
            final(self).addr() == old(self).addr(),
            final(self).spec_strategy() == old(self).spec_strategy(),
    {
        proof {
            self.lemma_inv();
        }
        let (_, index) = self.split();
        let out = <L as ApplyMut<F>>::apply_mut(&mut self.value, index, f);
        proof {
            <L as ApplyMut<F>>::lemma_applied_mut(old(self).value, self.value, f, out);
        }
        out
    }

    /// Calls `f` on the held values of this cell and of `other`, which hold the same
    /// alternative.
    pub fn apply_with<F, S2>(&self, other: &Vari<L, S2>, f: F) -> (out: <L as ApplyWith<
        F,
    >>::Output) where L: ApplyWith<F>, S2: AllocStrategy<L>

        requires
            self.inv(),
            other.inv(),
            self@.tag() == other@.tag(),
        ensures
            <L as ApplyWith<F>>::applied_with(self@, other@, f, out),
    {
        proof {
            self.lemma_inv();
            other.lemma_inv();
        }
        let (_, index) = self.split();
        <L as ApplyWith<F>>::apply_with(&self.value, &other.value, index, f)
    }

    /// Whether this cell and `other` hold the same alternative and the held values are equal
    /// as values of that alternative.
    pub fn eq<S2>(&self, other: &Vari<L, S2>) -> (r: bool) where
        L: ApplyWith<PartialEqImp, Output = bool>,
        S2: AllocStrategy<L>,

        requires
            self.inv(),
            other.inv(),
        ensures
            self@.tag() != other@.tag() ==> !r,
            self@.tag() == other@.tag() ==> <L as ApplyWith<PartialEqImp>>::applied_with(
                self@,
                other@,
                PartialEqImp,
                r,
            ),
    {
        let (_, index) = self.split();
        let (_, oindex) = other.split();
        index == oindex && self.apply_with(other, PartialEqImp)
    }
}

/// The operation that compares two values of one alternative for equality.
pub struct PartialEqImp;

impl<T: PartialEq> FuncWith<T> for PartialEqImp {
    type Output = bool;

    open spec fn called_with(self, value: T, other: T, out: bool) -> bool {
        T::obeys_eq_spec() ==> out == value.eq_spec(&other)
    }

    fn call_with(self, value: &T, other: &T) -> (out: bool) {
        value == other
    }
}

} // verus!
