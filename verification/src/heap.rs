//! The allocator as the cells see it: a book of the blocks that are live, with a count of
//! every block handed out and every block taken back.
//!
//! Addresses are handed out in increasing order and never again, so a block that was returned
//! is never mistaken for a live one.
use crate::layout::{is_aligned, is_power_of_two, Layout};
use vstd::prelude::*;

verus! {

/// What a [`Heap`] stands for.
pub struct HeapView {
    /// The blocks that are live, by address, each with the layout it was asked for.
    pub live: Map<usize, Layout>,
    /// How many blocks were handed out so far.
    pub allocs: nat,
    /// How many blocks were taken back so far.
    pub frees: nat,
    /// Every address at or above this one is still unused.
    pub next: nat,
}

/// The books of an allocator: where the next block goes, and how many blocks were handed out
/// and taken back. Which blocks are live is known to the proofs alone.
pub struct Heap {
    next: usize,
    allocs: usize,
    frees: usize,
    live: Ghost<Map<usize, Layout>>,
}

/// The first address at or above `from` that is aligned to the power of two `align`.
pub open spec fn spec_align_up(from: usize, align: usize) -> usize {
    ((from + (align - 1)) as usize) & !((align - 1) as usize)
}

impl View for Heap {
    type V = HeapView;

    closed spec fn view(&self) -> HeapView {
        HeapView {
            live: self.live@,
            allocs: self.allocs as nat,
            frees: self.frees as nat,
            next: self.next as nat,
        }
    }
}

impl HeapView {
    /// A block of this layout can still be handed out, whatever padding its alignment asks
    /// for.
    pub open spec fn has_room(self, layout: Layout) -> bool {
        self.next + (layout.align - 1) + layout.size <= usize::MAX
    }

    /// Storage of `layout` can still be obtained: a block can be handed out, or the layout
    /// needs no memory.
    pub open spec fn has_room_if_sized(self, layout: Layout) -> bool {
        layout.size != 0 ==> self.has_room(layout)
    }

    /// The book after a block of `layout` was handed out at `addr`.
    pub open spec fn after_alloc(self, addr: usize, layout: Layout) -> HeapView {
        HeapView {
            live: self.live.insert(addr, layout),
            allocs: self.allocs + 1,
            frees: self.frees,
            next: addr as nat + layout.size as nat,
        }
    }

    /// The book after the block at `addr` was taken back.
    pub open spec fn after_dealloc(self, addr: usize) -> HeapView {
        HeapView {
            live: self.live.remove(addr),
            allocs: self.allocs,
            frees: self.frees + 1,
            next: self.next,
        }
    }

    /// The address of the next block of `layout` that is handed out.
    pub open spec fn next_addr(self, layout: Layout) -> usize {
        spec_align_up(self.next as usize, layout.align)
    }

    /// The book after storage of `layout` was obtained at `addr`: a block was handed out,
    /// unless the layout needs no memory.
    pub open spec fn after_acquire(self, addr: usize, layout: Layout) -> HeapView {
        if layout.size == 0 {
            self
        } else {
            self.after_alloc(addr, layout)
        }
    }

    /// The book after storage of `layout` at `addr` was given up: the block was taken back,
    /// unless the layout needs no memory.
    pub open spec fn after_release(self, addr: usize, layout: Layout) -> HeapView {
        if layout.size == 0 {
            self
        } else {
            self.after_dealloc(addr)
        }
    }

    /// The book after storage of `layout` was obtained and given up at once: no block is live
    /// that was not live before, but one more was handed out and one more taken back, unless
    /// the layout needs no memory.
    pub open spec fn after_wasted(self, layout: Layout) -> HeapView {
        if layout.size == 0 {
            self
        } else {
            HeapView {
                live: self.live,
                allocs: self.allocs + 1,
                frees: self.frees + 1,
                next: self.next_addr(layout) as nat + layout.size as nat,
            }
        }
    }

    /// The book after storage of `new_layout` was obtained at `new_addr` and the storage of
    /// `old_layout` at `old_addr` was given up for it.
    pub open spec fn after_exchange(
        self,
        new_addr: usize,
        new_layout: Layout,
        old_addr: usize,
        old_layout: Layout,
    ) -> HeapView {
        self.after_acquire(new_addr, new_layout).after_release(old_addr, old_layout)
    }

    /// Storage of `layout` is at `addr`: a live block of that layout, or nothing at all where
    /// the layout needs no memory.
    pub open spec fn backs(self, addr: usize, layout: Layout) -> bool {
        layout.size != 0 ==> self.holds(addr, layout)
    }

    /// The block at `addr` is live and was asked for with `layout`.
    pub open spec fn holds(self, addr: usize, layout: Layout) -> bool {
        self.live.dom().contains(addr) && self.live[addr] == layout
    }
}

/// The next block goes to the first aligned address at or above the unused addresses.
pub proof fn lemma_next_addr(heap: HeapView, layout: Layout)
    requires
        layout.valid(),
        heap.next + (layout.align - 1) <= usize::MAX,
    ensures
        heap.next <= heap.next_addr(layout) <= heap.next + (layout.align - 1),
        is_aligned(heap.next_addr(layout), layout.align),
{
    let from: usize = heap.next as usize;
    let top: usize = (from + (layout.align - 1)) as usize;
    let addr: usize = top & !((layout.align - 1) as usize);
    lemma_align_up(from, layout.align, top, addr);
}

impl Heap {
    /// The book is consistent: every live block lies below the unused addresses, at a nonzero
    /// address aligned as asked, and no more blocks were taken back than handed out.
    pub closed spec fn wf(&self) -> bool {
        &&& 1 <= self.next
        &&& self.frees <= self.allocs
        &&& self.allocs < self.next
        &&& self.live@.dom().finite()
        &&& self.live@.dom().len() == self.allocs - self.frees
        &&& forall|addr: usize| #[trigger]
            self.live@.dom().contains(addr) ==> {
                &&& addr != 0
                &&& self.live@[addr].size != 0
                &&& is_aligned(addr, self.live@[addr].align)
                &&& addr + self.live@[addr].size <= self.next
            }
    }

    /// What holds of every live block of a consistent book.
    pub proof fn lemma_live_block(&self, addr: usize)
        requires
            self.wf(),
            self@.live.dom().contains(addr),
        ensures
            addr != 0,
            self@.live[addr].size != 0,
            is_aligned(addr, self@.live[addr].align),
            addr + self@.live[addr].size <= self@.next,
            self@.frees < self@.allocs,
    {
    }

    /// The live blocks are those handed out and not yet taken back.
    pub proof fn lemma_live_count(&self)
        requires
            self.wf(),
        ensures
            self@.live.dom().finite(),
            self@.live.dom().len() == self@.allocs - self@.frees,
    {
    }

    /// A heap from which nothing was handed out yet.
    pub fn new() -> (heap: Heap)
        ensures
            heap.wf(),
            heap@.live == Map::<usize, Layout>::empty(),
            heap@.allocs == 0,
            heap@.frees == 0,
            heap@.next == 1,
    {
        Heap { next: 1, allocs: 0, frees: 0, live: Ghost(Map::empty()) }
    }

    /// How many blocks were handed out so far.
    pub fn num_allocs(&self) -> (n: usize)
        ensures
            n == self@.allocs,
    {
        self.allocs
    }

    /// How many blocks were taken back so far.
    pub fn num_frees(&self) -> (n: usize)
        ensures
            n == self@.frees,
    {
        self.frees
    }

    /// Whether a block of `layout` can still be handed out.
    pub fn can_alloc(&self, layout: Layout) -> (r: bool)
        requires
            layout.valid(),
        ensures
            r == self@.has_room(layout),
    {
        let mask: usize = layout.align - 1;
        mask <= usize::MAX - self.next && layout.size <= usize::MAX - self.next - mask
    }

    /// Hands out a fresh block of `layout`.
    pub fn allocate(&mut self, layout: Layout) -> (addr: usize)
        requires
            old(self).wf(),
            layout.valid(),
            layout.size != 0,
            old(self)@.has_room(layout),
        ensures
            final(self).wf(),
            addr != 0,
            is_aligned(addr, layout.align),
            !old(self)@.live.dom().contains(addr),
            addr == old(self)@.next_addr(layout),
            final(self)@ == old(self)@.after_alloc(addr, layout),
    {
        let mask: usize = layout.align - 1;
        let top: usize = self.next + mask;
        let addr: usize = top & !mask;
        proof {
            lemma_align_up(self.next, layout.align, top, addr);
        }
        self.next = addr + layout.size;
        self.allocs = self.allocs + 1;
        self.live = Ghost(self.live@.insert(addr, layout));
        addr
    }

    /// Takes back the block at `addr`, which was handed out for `layout`.
    pub fn deallocate(&mut self, addr: usize, layout: Layout)
        requires
            old(self).wf(),
            old(self)@.holds(addr, layout),
        ensures
            final(self).wf(),
            final(self)@ == old(self)@.after_dealloc(addr),
    {
        self.frees = self.frees + 1;
        self.live = Ghost(self.live@.remove(addr));
    }
}

/// Rounding up to a power of two gives the first aligned address at or above the start.
proof fn lemma_align_up(from: usize, align: usize, top: usize, addr: usize)
    requires
        is_power_of_two(align),
        top == from + (align - 1),
        addr == top & !((align - 1) as usize),
    ensures
        is_aligned(addr, align),
        from <= addr <= top,
        addr == spec_align_up(from, align),
{
    assert(addr & ((align - 1) as usize) == 0 && from <= addr && addr <= top) by (bit_vector)
        requires
            align != 0,
            align & ((align - 1) as usize) == 0,
            top == from + (align - 1),
            addr == top & !((align - 1) as usize),
    ;
}

} // verus!
