//! What holds of the cells whatever they hold: statements that relate several operations,
//! proved from the operations' own contracts.
use crate::heap::{Heap, HeapView};
use crate::internals::{CloneImp, Contains, Peano, TypeList};
use crate::layout::{is_aligned, is_power_of_two, Layout};
use crate::strategy::{spec_minimal, AllocStrategy, BiggestVariant, Minimal};
use crate::tag::{lemma_split_pack, spec_pack};
use crate::Vari;
use vstd::prelude::*;

verus! {

/// Tag bits and address bits never meet: two words packed for one alignment are the same
/// word only if they hold the same address and the same tag.
pub proof fn law_tag_and_address_apart(
    addr1: usize,
    tag1: usize,
    addr2: usize,
    tag2: usize,
    align: usize,
)
    requires
        is_power_of_two(align),
        is_aligned(addr1, align),
        is_aligned(addr2, align),
        tag1 < align,
        tag2 < align,
        spec_pack(addr1, tag1) == spec_pack(addr2, tag2),
    ensures
        addr1 == addr2,
        tag1 == tag2,
{
    lemma_split_pack(addr1, tag1, align);
    lemma_split_pack(addr2, tag2, align);
}

/// No block is lost: the blocks that are live are those that were handed out and not taken
/// back.
pub proof fn law_live_blocks_are_counted(heap: &Heap)
    requires
        heap.wf(),
    ensures
        heap@.live.dom().finite(),
        heap@.live.dom().len() == heap@.allocs - heap@.frees,
        heap@.frees <= heap@.allocs,
{
    heap.lemma_live_count();
}

/// A cell that was made to hold `value` as the alternative at `N` has the tag `N`, and taking
/// its value out gives `value` back: as that alternative and not as any other.
pub proof fn law_construct_then_extract<L, S, V, N>(cell: Vari<L, S>, value: V) where
    L: Contains<V, N>,
    S: AllocStrategy<L>,
    N: Peano,

    requires
        cell@ == <L as Contains<V, N>>::inject(value),
    ensures
        cell@.proper(),
        cell@.tag() == N::spec_value(),
        cell@.tag() < L::spec_count(),
        <L as Contains<V, N>>::project(&cell@) == Some(value),
        <L as Contains<V, N>>::spec_take(cell@) == Ok::<V, <L as Contains<V, N>>::Remainder>(value),
{
    <L as Contains<V, N>>::lemma_inject(value);
    <L as Contains<V, N>>::lemma_position();
    <L as Contains<V, N>>::lemma_take(cell@);
}

/// Under the policy of the biggest variant every alternative has the same layout.
pub proof fn law_biggest_variant_one_layout<L: TypeList>(index: nat, other: nat)
    ensures
        <BiggestVariant as AllocStrategy<L>>::spec_layout(index) == <BiggestVariant as AllocStrategy<
            L,
        >>::spec_layout(other),
{
}

/// Under the policy of the biggest variant an overwrite never touches the heap, whatever the
/// alternative before and the alternative after: the storage that the cell was made with
/// stays.
pub proof fn law_biggest_variant_keeps_storage<L: TypeList>(
    before: Vari<L, BiggestVariant>,
    after: Vari<L, BiggestVariant>,
    target: nat,
    heap_before: HeapView,
    heap_after: HeapView,
)
    requires
        after.overwritten(target, &before, heap_before, heap_after),
    ensures
        heap_after == heap_before,
        heap_after.allocs == heap_before.allocs,
        heap_after.frees == heap_before.frees,
        after.addr() == before.addr(),
{
}

/// Under the minimal policy an overwrite with an alternative of the same layout never touches
/// the heap. With an alternative of another layout it hands out exactly one block and takes
/// back exactly one, where both layouts need memory.
pub proof fn law_minimal_exchanges_on_layout_change<L: TypeList>(
    before: Vari<L, Minimal>,
    after: Vari<L, Minimal>,
    target: nat,
    heap_before: HeapView,
    heap_after: HeapView,
)
    requires
        after.overwritten(target, &before, heap_before, heap_after),
    ensures
        spec_minimal::<L>(before@.tag()) == spec_minimal::<L>(target) ==> {
            &&& heap_after == heap_before
            &&& after.addr() == before.addr()
        },
        spec_minimal::<L>(before@.tag()) != spec_minimal::<L>(target) && spec_minimal::<L>(
            before@.tag(),
        ).size != 0 && spec_minimal::<L>(target).size != 0 ==> {
            &&& heap_after.allocs == heap_before.allocs + 1
            &&& heap_after.frees == heap_before.frees + 1
            &&& heap_after.live == heap_before.live.insert(after.addr(), after.layout()).remove(
                before.addr(),
            )
        },
{
}

/// Storage that needs no memory is obtained, given up, exchanged and wasted without a block
/// handed out or taken back: a cell never touches the heap, from its making to its end, while
/// the layout that its policy asks for the held alternative is of size zero.
pub proof fn law_zero_size_never_allocates(
    heap: HeapView,
    addr: usize,
    layout: Layout,
    other_addr: usize,
    other_layout: Layout,
)
    requires
        layout.size == 0,
    ensures
        heap.has_room_if_sized(layout),
        heap.backs(addr, layout),
        heap.after_acquire(addr, layout) == heap,
        heap.after_release(addr, layout) == heap,
        heap.after_wasted(layout) == heap,
        other_layout.size == 0 ==> heap.after_exchange(addr, layout, other_addr, other_layout)
            == heap,
{
}

/// An overwrite whose producer failed leaves no trace but in the counts: the same blocks are
/// live as before, and as many more were handed out as were taken back.
pub proof fn law_failed_overwrite_is_undone<L: TypeList, S: AllocStrategy<L>>(
    cell: Vari<L, S>,
    target: nat,
    heap_before: HeapView,
    heap_after: HeapView,
)
    requires
        cell.overwrite_failed(target, heap_before, heap_after),
    ensures
        heap_after.live == heap_before.live,
        heap_after.allocs - heap_after.frees == heap_before.allocs - heap_before.frees,
        cell.layout() == S::spec_layout(target) ==> heap_after == heap_before,
        heap_before.backs(cell.addr(), cell.layout()) ==> heap_after.backs(
            cell.addr(),
            cell.layout(),
        ),
{
}

/// A cell that was made a clone of `source` is as a cell made afresh for a clone of what
/// `source` holds: it has the tag of `source`, and storage of the layout that the policy asks
/// for that tag.
pub proof fn law_clone_from_as_fresh<L: CloneImp + TypeList, S: AllocStrategy<L>>(
    cell: Vari<L, S>,
    source: Vari<L, S>,
)
    requires
        source@.proper(),
        source@.spec_cloned(cell@),
    ensures
        cell@.proper(),
        cell@.tag() == source@.tag(),
        cell.layout() == S::spec_layout(source@.tag()),
        cell.layout() == source.layout(),
{
    source@.lemma_cloned(cell@);
}

} // verus!
