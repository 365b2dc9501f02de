//! Policies that decide how much storage backs each alternative.
use crate::internals::TypeList;
use crate::layout::Layout;
use crate::tag::{count_fits, spec_align};
use vstd::prelude::*;

verus! {

/// A policy for the storage of the alternatives of the list `L`.
///
/// The layout for an alternative covers the alternative's own size and alignment, and is
/// aligned so that addresses carry the tags of `L`. Storage for one alternative may be reused
/// for another exactly if the two layouts are the same. The layout is a matter of the policy
/// and the position alone: two values of one policy never differ in it.
pub trait AllocStrategy<L: TypeList>: Clone {
    /// The layout that backs the alternative at `index`.
    spec fn spec_layout(index: nat) -> Layout;

    /// The layout that backs the alternative at `index`: how a policy is asked.
    fn layout(&self, index: usize) -> (l: Layout)
        requires
            index < L::spec_count(),
            count_fits(L::spec_count()),
        ensures
            l == Self::spec_layout(index as nat),
            l.valid(),
            l.align >= spec_align(L::spec_count()),
            l.covers(L::spec_layout_min(index as nat, 1)),
    {
        self.layout_unchecked(index)
    }

    /// The layout that backs the alternative at `index`: what a policy defines.
    fn layout_unchecked(&self, index: usize) -> (l: Layout)
        requires
            index < L::spec_count(),
            count_fits(L::spec_count()),
        ensures
            l == Self::spec_layout(index as nat),
            l.valid(),
            l.align >= spec_align(L::spec_count()),
            l.covers(L::spec_layout_min(index as nat, 1)),
    ;

    /// Whether storage that backs the alternative at `current` may be reused for the one at
    /// `other`.
    fn matches_index_layout(&self, current: usize, other: usize) -> (r: bool)
        requires
            current < L::spec_count(),
            other < L::spec_count(),
            count_fits(L::spec_count()),
        ensures
            r == (Self::spec_layout(current as nat) == Self::spec_layout(other as nat)),
    ;
}

/// The policy that backs every alternative with the layout of the largest and most aligned:
/// storage is never exchanged, whatever alternative comes next.
#[derive(Clone, Copy)]
pub struct BiggestVariant;

/// The policy that backs every alternative with exactly its own layout: storage is as small as
/// it can be, and exchanged whenever the layout changes.
#[derive(Clone, Copy)]
pub struct Minimal;

/// The policy of a cell that names none.
pub type DefaultStrategy = BiggestVariant;

/// The layout that covers every alternative of `L`.
pub open spec fn spec_biggest<L: TypeList>() -> Layout {
    L::spec_layout_max(Layout { size: 0, align: spec_align(L::spec_count()) as usize })
}

/// The layout of the alternative of `L` at `index`, aligned for the tags of `L`.
pub open spec fn spec_minimal<L: TypeList>(index: nat) -> Layout {
    L::spec_layout_min(index, spec_align(L::spec_count()) as usize)
}

impl<L: TypeList> AllocStrategy<L> for BiggestVariant {
    open spec fn spec_layout(index: nat) -> Layout {
        spec_biggest::<L>()
    }

    fn layout_unchecked(&self, index: usize) -> (l: Layout) {
        let acc = Layout { size: 0, align: L::align() };
        proof {
            L::lemma_layout_max(acc, index as nat, 1);
        }
        L::layout_max(acc)
    }

    fn matches_index_layout(&self, current: usize, other: usize) -> (r: bool) {
        true
    }
}

impl<L: TypeList> AllocStrategy<L> for Minimal {
    open spec fn spec_layout(index: nat) -> Layout {
        spec_minimal::<L>(index)
    }

    fn layout_unchecked(&self, index: usize) -> (l: Layout) {
        let align = L::align();
        proof {
            L::lemma_layout_min(index as nat, 1, align);
        }
        L::layout_min(index, align)
    }

    fn matches_index_layout(&self, current: usize, other: usize) -> (r: bool) {
        let here = L::layout_min(current, L::align());
        let there = L::layout_min(other, L::align());
        here == there
    }
}

} // verus!
