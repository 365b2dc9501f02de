//! Sizes and alignments of backing storage.
//!
//! Alignments are powers of two. They are characterised bitwise, so that the facts about tag
//! bits and address bits can be discharged by the bit-vector solver.
use vstd::prelude::*;

verus! {

/// `n` has exactly one bit set.
pub open spec fn is_power_of_two(n: usize) -> bool {
    n != 0 && n & ((n - 1) as usize) == 0
}

/// `addr` is a multiple of the power of two `align`: none of its low bits is set.
pub open spec fn is_aligned(addr: usize, align: usize) -> bool {
    align != 0 && addr & ((align - 1) as usize) == 0
}

/// The size and alignment of one block of backing storage.
#[derive(Clone, Copy, PartialEq, Eq, Structural, Debug)]
pub struct Layout {
    pub size: usize,
    pub align: usize,
}

impl Layout {
    /// A layout is usable when its alignment is a power of two.
    pub open spec fn valid(self) -> bool {
        is_power_of_two(self.align)
    }

    /// This layout needs no memory at all.
    pub open spec fn is_zero_sized(self) -> bool {
        self.size == 0
    }

    /// `self` is large enough and aligned strictly enough to hold anything `inner` can hold.
    pub open spec fn covers(self, inner: Layout) -> bool {
        self.size >= inner.size && self.align >= inner.align
    }

    /// The layout with the given size and alignment, if the alignment is a power of two.
    pub fn from_size_align(size: usize, align: usize) -> (r: Option<Layout>)
        ensures
            r == (if is_power_of_two(align) {
                Some(Layout { size, align })
            } else {
                None::<Layout>
            }),
    {
        if power_of_two(align) {
            Some(Layout { size, align })
        } else {
            None
        }
    }

    /// The number of bytes.
    pub fn size(&self) -> (r: usize)
        ensures
            r == self.size,
    {
        self.size
    }

    /// The alignment in bytes.
    pub fn align(&self) -> (r: usize)
        ensures
            r == self.align,
    {
        self.align
    }

    /// The componentwise maximum of two layouts.
    pub open spec fn spec_max(self, other: Layout) -> Layout {
        Layout {
            size: if self.size >= other.size {
                self.size
            } else {
                other.size
            },
            align: if self.align >= other.align {
                self.align
            } else {
                other.align
            },
        }
    }

    /// The componentwise maximum of two layouts: large enough for either.
    pub fn max(self, other: Layout) -> (r: Layout)
        ensures
            r == self.spec_max(other),
            self.valid() && other.valid() ==> r.valid(),
            r.covers(self),
            r.covers(other),
    {
        let size: usize = if self.size >= other.size {
            self.size
        } else {
            other.size
        };
        let align: usize = if self.align >= other.align {
            self.align
        } else {
            other.align
        };
        Layout { size, align }
    }
}

/// Whether `n` is a power of two.
pub fn power_of_two(n: usize) -> (r: bool)
    ensures
        r == is_power_of_two(n),
{
    n != 0 && n & (n - 1) == 0
}

/// An address aligned to a power of two is aligned to every smaller power of two.
pub proof fn lemma_aligned_to_smaller(addr: usize, small: usize, large: usize)
    requires
        is_power_of_two(small),
        is_power_of_two(large),
        small <= large,
        is_aligned(addr, large),
    ensures
        is_aligned(addr, small),
{
    assert(addr & ((small - 1) as usize) == 0) by (bit_vector)
        requires
            small != 0,
            small & ((small - 1) as usize) == 0,
            large != 0,
            large & ((large - 1) as usize) == 0,
            small <= large,
            addr & ((large - 1) as usize) == 0,
    ;
}

/// The arithmetic notion of a power of two implies the bitwise one.
pub proof fn lemma_pow2_bits(n: usize)
    requires
        vstd::arithmetic::power2::is_pow2(n as int),
    ensures
        is_power_of_two(n),
    decreases n,
{
    reveal(vstd::arithmetic::power2::is_pow2);
    if n != 1 {
        let half: usize = (n / 2) as usize;
        lemma_pow2_bits(half);
        assert(n != 0 && n & ((n - 1) as usize) == 0) by (bit_vector)
            requires
                n % 2 == 0,
                half == n / 2,
                half != 0,
                half & ((half - 1) as usize) == 0,
        ;
    } else {
        assert(1usize & ((1usize - 1) as usize) == 0) by (bit_vector);
    }
}

/// The layout of a value of type `T`: its own size, and its own alignment raised to at least
/// `align`.
pub open spec fn spec_layout<T>(align: usize) -> Layout {
    Layout {
        size: vstd::layout::size_of::<T>() as usize,
        align: if vstd::layout::align_of::<T>() as usize >= align {
            vstd::layout::align_of::<T>() as usize
        } else {
            align
        },
    }
}

} // verus!
