//! Packing a tag into the low bits of an aligned address, and taking it out again.
//!
//! A set of `count` alternatives needs `ceil(log2(count))` tag bits. Every address that carries
//! a tag is aligned to two to that power, so tag bits and address bits never meet.
use crate::layout::{is_aligned, is_power_of_two};
use vstd::arithmetic::power2::{lemma2_to64, lemma_pow2_strictly_increases, lemma_pow2_unfold, pow2};
use vstd::prelude::*;

verus! {

/// How far `a` is below `count`.
pub open spec fn spec_gap(a: nat, count: nat) -> nat {
    if a < count {
        (count - a) as nat
    } else {
        0
    }
}

/// The least power of two that is at least `count`, found by doubling from `a`.
pub open spec fn align_from(a: nat, count: nat) -> nat
    decreases spec_gap(a, count),
{
    if 0 < a && a < count {
        align_from(a + a, count)
    } else {
        a
    }
}

/// The number of doublings that take `a` to at least `count`.
pub open spec fn class_from(a: nat, count: nat) -> nat
    decreases spec_gap(a, count),
{
    if 0 < a && a < count {
        1 + class_from(a + a, count)
    } else {
        0
    }
}

/// The alignment that leaves room for the tags of `count` alternatives.
pub open spec fn spec_align(count: nat) -> nat {
    align_from(1, count)
}

/// The number of tag bits for `count` alternatives.
pub open spec fn spec_size_class(count: nat) -> nat {
    class_from(1, count)
}

/// The largest number of alternatives whose tag alignment fits a machine word.
pub open spec fn count_fits(count: nat) -> bool {
    count <= usize::MAX / 2 + 1
}

/// The tag alignment is the size class as a power of two, it leaves room for every tag, and no
/// smaller power of two would.
pub proof fn lemma_align_from(a: nat, k: nat, count: nat)
    requires
        a == pow2(k),
        a == 1 || a / 2 < count,
    ensures
        align_from(a, count) == pow2(k + class_from(a, count)),
        align_from(a, count) >= count,
        align_from(a, count) >= 1,
        align_from(a, count) == 1 || align_from(a, count) / 2 < count,
    decreases spec_gap(a, count),
{
    vstd::arithmetic::power2::lemma_pow2_pos(k);
    if 0 < a < count {
        lemma_pow2_unfold(k + 1);
        lemma_align_from(2 * a, k + 1, count);
    }
}

/// The tag alignment of `count` alternatives is two to the power of their size class, at
/// least `count`, and the least such power.
pub proof fn lemma_spec_align(count: nat)
    ensures
        spec_align(count) == pow2(spec_size_class(count)),
        spec_align(count) >= count,
        spec_align(count) >= 1,
        spec_align(count) == 1 || spec_align(count) / 2 < count,
{
    lemma2_to64();
    lemma_align_from(1, 0, count);
}

/// The tag alignment of a number of alternatives that fits is a power of two that fits a
/// machine word.
pub proof fn lemma_align_is_power_of_two(count: nat)
    requires
        count_fits(count),
    ensures
        spec_align(count) <= usize::MAX,
        is_power_of_two(spec_align(count) as usize),
{
    assert(is_power_of_two(1usize)) by (bit_vector);
    lemma_align_from_power_of_two(1, count);
}

/// Doubling a power of two up to a number that fits gives a power of two that fits.
proof fn lemma_align_from_power_of_two(a: nat, count: nat)
    requires
        count_fits(count),
        0 < a <= usize::MAX,
        is_power_of_two(a as usize),
    ensures
        align_from(a, count) <= usize::MAX,
        is_power_of_two(align_from(a, count) as usize),
    decreases spec_gap(a, count),
{
    if 0 < a && a < count {
        let twice: usize = (a + a) as usize;
        let half: usize = a as usize;
        assert(is_power_of_two(twice)) by (bit_vector)
            requires
                is_power_of_two(half),
                twice == 2 * half,
        ;
        lemma_align_from_power_of_two(a + a, count);
    }
}

/// The number of tag bits and the tag alignment for `count` alternatives.
pub fn size_class_and_align(count: usize) -> (r: (u32, usize))
    requires
        count_fits(count as nat),
    ensures
        r.0 == spec_size_class(count as nat),
        r.1 == spec_align(count as nat),
        r.1 == pow2(r.0 as nat),
        is_power_of_two(r.1),
        r.1 >= count,
        r.1 == 1 || r.1 / 2 < count,
        r.0 < usize::BITS,
{
    let mut a: usize = 1;
    let mut k: u32 = 0;
    proof {
        lemma2_to64();
        lemma_spec_align(count as nat);
        assert(is_power_of_two(1usize)) by (bit_vector);
    }
    while a < count
        invariant
            count_fits(count as nat),
            a >= 1,
            a == pow2(k as nat),
            k < usize::BITS,
            is_power_of_two(a),
            align_from(a as nat, count as nat) == spec_align(count as nat),
            class_from(a as nat, count as nat) + k == spec_size_class(count as nat),
        decreases spec_gap(a as nat, count as nat),
    {
        proof {
            lemma_pow2_unfold((k + 1) as nat);
            lemma2_to64();
            if k + 1 >= usize::BITS {
                if usize::BITS as nat != (k + 1) as nat {
                    lemma_pow2_strictly_increases(usize::BITS as nat, (k + 1) as nat);
                }
            }
            let twice: usize = (2 * a) as usize;
            assert(is_power_of_two(twice)) by (bit_vector)
                requires
                    is_power_of_two(a),
                    twice == 2 * a,
            ;
        }
        a = 2 * a;
        k = k + 1;
    }
    (k, a)
}

/// The word that holds `tag` in the low bits of `addr`.
pub open spec fn spec_pack(addr: usize, tag: usize) -> usize {
    addr | tag
}

/// The address and the tag held in `word`, where `mask` covers the tag bits.
pub open spec fn spec_split(word: usize, mask: usize) -> (usize, usize) {
    (word & !mask, word & mask)
}

/// Puts `tag` into the low bits of `addr`.
pub fn pack(addr: usize, tag: usize, align: usize) -> (word: usize)
    requires
        is_power_of_two(align),
        is_aligned(addr, align),
        tag < align,
    ensures
        word == spec_pack(addr, tag),
        spec_split(word, (align - 1) as usize) == (addr, tag),
        addr != 0 ==> word != 0,
{
    proof {
        lemma_split_pack(addr, tag, align);
    }
    addr | tag
}

/// Takes a tagged word apart into its address and its tag.
pub fn split(word: usize, mask: usize) -> (r: (usize, usize))
    ensures
        r == spec_split(word, mask),
{
    (word & !mask, word & mask)
}

/// Splitting what was packed gives back the address and the tag.
pub proof fn lemma_split_pack(addr: usize, tag: usize, align: usize)
    requires
        is_power_of_two(align),
        is_aligned(addr, align),
        tag < align,
    ensures
        spec_split(spec_pack(addr, tag), (align - 1) as usize) == (addr, tag),
        addr != 0 ==> spec_pack(addr, tag) != 0,
{
    let mask: usize = (align - 1) as usize;
    assert((addr | tag) & !mask == addr && (addr | tag) & mask == tag && (addr != 0 ==> addr | tag
        != 0)) by (bit_vector)
        requires
            align != 0,
            mask == (align - 1) as usize,
            align & mask == 0,
            addr & mask == 0,
            tag < align,
    ;
}

/// The address that stands for storage of size zero: no memory is behind it, but it is
/// aligned like any other, so that it carries a tag in the same way.
pub fn sentinel(align: usize) -> (addr: usize)
    requires
        is_power_of_two(align),
    ensures
        addr == align,
        addr != 0,
        is_aligned(addr, align),
{
    let dangling: usize = 1;
    let addr: usize = (dangling & !(align - 1)) | align;
    assert(addr == align) by (bit_vector)
        requires
            align != 0,
            align & ((align - 1) as usize) == 0,
            addr == (1usize & !((align - 1) as usize)) | align,
    ;
    addr
}

} // verus!
