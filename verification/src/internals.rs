//! Closed sets of alternatives as type-level lists, and the sum type over such a list.
//!
//! A list is `CoProd<A0, CoProd<A1, ... CNil>>`. As a type it says which alternatives there
//! are; as a value it holds exactly one of them. The position of the held alternative is the
//! value's tag.
use crate::heap::Heap;
use crate::layout::{is_aligned, is_power_of_two, lemma_pow2_bits, spec_layout, Layout};
use crate::strategy::AllocStrategy;
use crate::tag::{
    count_fits, pack, sentinel, size_class_and_align, spec_align, spec_pack, spec_size_class,
    spec_split,
};
use vstd::layout::layout_for_type_is_valid;
use vstd::prelude::*;

verus! {

/// The empty list. It has no value: no value of a list ends here.
pub enum CNil {
    Nil(core::convert::Infallible),
}

/// A list with first alternative `A` and remaining alternatives `B`.
pub enum CoProd<A, B> {
    Item(A),
    Rest(B),
}

/// The number zero, as a type.
pub struct Z;

/// The successor of the number `N`, as a type.
pub struct S<N>(N);

/// Keeps the numbers closed: nothing but zero and its successors is a number.
pub trait Seal {

}

/// A natural number as a type: the position of an alternative in a list.
pub trait Peano: Seal {
    /// The number.
    spec fn spec_value() -> nat;

    /// The number as a value.
    fn value() -> (v: usize)
        requires
            Self::spec_value() <= usize::MAX,
        ensures
            v == Self::spec_value(),
    ;
}

impl Seal for Z {

}

impl<N: Seal> Seal for S<N> {

}

impl Peano for Z {
    open spec fn spec_value() -> nat {
        0
    }

    fn value() -> (v: usize) {
        0
    }
}

impl<N: Peano> Peano for S<N> {
    open spec fn spec_value() -> nat {
        N::spec_value() + 1
    }

    fn value() -> (v: usize) {
        N::value() + 1
    }
}

/// The length of a list, and the tag of a value of it.
pub trait Tuple: Sized {
    /// The number of alternatives.
    spec fn spec_count() -> nat;

    /// The position of the alternative that the value holds.
    spec fn tag(&self) -> nat;

    /// The value holds an alternative: it does not end in the empty list.
    spec fn proper(&self) -> bool;

    /// The tag of a value is the position of one of the alternatives.
    proof fn lemma_tag_in_range(&self)
        ensures
            self.proper() ==> self.tag() < Self::spec_count(),
    ;

    /// The number of alternatives.
    fn count() -> (n: usize)
        requires
            Self::spec_count() <= usize::MAX,
        ensures
            n == Self::spec_count(),
    ;
}

impl Tuple for CNil {
    open spec fn spec_count() -> nat {
        0
    }

    open spec fn tag(&self) -> nat {
        0
    }

    open spec fn proper(&self) -> bool {
        false
    }

    proof fn lemma_tag_in_range(&self) {
    }

    fn count() -> (n: usize) {
        0
    }
}

impl<A, R: Tuple> Tuple for CoProd<A, R> {
    open spec fn spec_count() -> nat {
        R::spec_count() + 1
    }

    open spec fn tag(&self) -> nat {
        match self {
            CoProd::Item(_) => 0,
            CoProd::Rest(rest) => rest.tag() + 1,
        }
    }

    open spec fn proper(&self) -> bool {
        match self {
            CoProd::Item(_) => true,
            CoProd::Rest(rest) => rest.proper(),
        }
    }

    proof fn lemma_tag_in_range(&self) {
        match self {
            CoProd::Item(_) => {},
            CoProd::Rest(rest) => {
                rest.lemma_tag_in_range();
            },
        }
    }

    fn count() -> (n: usize) {
        R::count() + 1
    }
}

/// The tag bits that a list needs, and the alignment that keeps them free.
pub trait SizeClass: Tuple {
    /// The number of low bits that hold the tag.
    fn size_class() -> (k: u32)
        requires
            count_fits(Self::spec_count()),
        ensures
            k == spec_size_class(Self::spec_count()),
            k < usize::BITS,
    {
        size_class_and_align(Self::count()).0
    }

    /// The alignment of every address that carries a tag of this list.
    fn align() -> (a: usize)
        requires
            count_fits(Self::spec_count()),
        ensures
            a == spec_align(Self::spec_count()),
            is_power_of_two(a),
            a >= Self::spec_count(),
    {
        size_class_and_align(Self::count()).1
    }
}

impl SizeClass for CNil {

}

impl<T, R: Tuple> SizeClass for CoProd<T, R> {

}

/// The layout of a value of type `T` in storage whose addresses carry tags: the type's own
/// size, and its own alignment raised to at least `align`.
pub fn layout<T>(align: usize) -> (l: Layout)
    requires
        is_power_of_two(align),
    ensures
        l == spec_layout::<T>(align),
        l.valid(),
        l.align >= align,
        l.size == vstd::layout::size_of::<T>(),
        l.align >= vstd::layout::align_of::<T>(),
{
    layout_for_type_is_valid::<T>();
    let own: usize = core::mem::align_of::<T>();
    proof {
        lemma_pow2_bits(own);
    }
    let align: usize = if own >= align {
        own
    } else {
        align
    };
    Layout { size: core::mem::size_of::<T>(), align }
}

/// The layouts of the alternatives of a list.
pub trait Repr: Tuple {
    /// The layout of the alternative at `index`, aligned to at least `align`. Past the end of
    /// the list there is nothing to lay out, and the layout is of size zero.
    spec fn spec_layout_min(index: nat, align: usize) -> Layout;

    /// The least layout that covers `acc` and every alternative.
    spec fn spec_layout_max(acc: Layout) -> Layout;

    /// The greatest layout covers what it started from and each alternative's own layout.
    proof fn lemma_layout_max(acc: Layout, index: nat, align: usize)
        requires
            align <= acc.align,
        ensures
            Self::spec_layout_max(acc).covers(acc),
            index < Self::spec_count() ==> Self::spec_layout_max(acc).covers(
                Self::spec_layout_min(index, align),
            ),
    ;

    /// Asking for more alignment gives a layout that covers the one for less.
    proof fn lemma_layout_min(index: nat, less: usize, more: usize)
        requires
            less <= more,
        ensures
            Self::spec_layout_min(index, more).covers(Self::spec_layout_min(index, less)),
    ;

    /// The layout of the alternative at `index`, aligned to at least `align`. Past the end of
    /// the list there is nothing to lay out, and the layout is of size zero.
    fn layout_min(index: usize, align: usize) -> (l: Layout)
        requires
            is_power_of_two(align),
        ensures
            l == Self::spec_layout_min(index as nat, align),
            l.valid(),
            l.align >= align,
    ;

    /// The least layout that covers `acc` and every alternative.
    fn layout_max(acc: Layout) -> (l: Layout)
        requires
            acc.valid(),
        ensures
            l == Self::spec_layout_max(acc),
            l.valid(),
            l.covers(acc),
    ;
}

impl Repr for CNil {
    open spec fn spec_layout_min(index: nat, align: usize) -> Layout {
        Layout { size: 0, align }
    }

    open spec fn spec_layout_max(acc: Layout) -> Layout {
        acc
    }

    proof fn lemma_layout_max(acc: Layout, index: nat, align: usize) {
    }

    proof fn lemma_layout_min(index: nat, less: usize, more: usize) {
    }

    fn layout_min(index: usize, align: usize) -> (l: Layout) {
        Layout { size: 0, align }
    }

    fn layout_max(acc: Layout) -> (l: Layout) {
        acc
    }
}

impl<T, B: Repr> Repr for CoProd<T, B> {
    open spec fn spec_layout_min(index: nat, align: usize) -> Layout {
        if index == 0 {
            spec_layout::<T>(align)
        } else {
            B::spec_layout_min((index - 1) as nat, align)
        }
    }

    open spec fn spec_layout_max(acc: Layout) -> Layout {
        B::spec_layout_max(spec_layout::<T>(1).spec_max(acc))
    }

    proof fn lemma_layout_max(acc: Layout, index: nat, align: usize) {
        let here = spec_layout::<T>(1).spec_max(acc);
        if index == 0 {
            B::lemma_layout_max(here, 0, align);
        } else {
            B::lemma_layout_max(here, (index - 1) as nat, align);
        }
    }

    proof fn lemma_layout_min(index: nat, less: usize, more: usize) {
        if index != 0 {
            B::lemma_layout_min((index - 1) as nat, less, more);
        }
    }

    fn layout_min(index: usize, align: usize) -> (l: Layout) {
        if index == 0 {
            layout::<T>(align)
        } else {
            B::layout_min(index - 1, align)
        }
    }

    fn layout_max(acc: Layout) -> (l: Layout) {
        proof {
            assert(is_power_of_two(1usize)) by (bit_vector);
        }
        B::layout_max(layout::<T>(1).max(acc))
    }
}

/// A closed, ordered set of alternatives.
pub trait TypeList: SizeClass + Repr + Tuple {

}

impl<T: SizeClass + Repr + Tuple> TypeList for T {

}

/// The list holds the alternative `T` at position `N`.
pub trait Contains<T, N: Peano>: TypeList {
    /// The list without this alternative.
    type Remainder: TypeList;

    /// The value of the list that holds `value` as this alternative.
    spec fn inject(value: T) -> Self;

    /// What the value holds as this alternative, if this alternative is the one it holds.
    spec fn project(&self) -> Option<T>;

    /// What the value holds as this alternative, or else the same value as one of the list
    /// without this alternative.
    spec fn spec_take(self) -> Result<T, Self::Remainder>;

    /// The alternative's position is one of the list's positions.
    proof fn lemma_position()
        ensures
            N::spec_value() < Self::spec_count(),
    ;

    /// What was put in as this alternative is held at the alternative's position, and comes
    /// out again.
    proof fn lemma_inject(value: T)
        ensures
            Self::inject(value).proper(),
            Self::inject(value).tag() == N::spec_value(),
            Self::inject(value).project() == Some(value),
    ;

    /// A value holds this alternative exactly if its tag is the alternative's position, and
    /// then it is what putting in the held value gives.
    proof fn lemma_project(&self)
        ensures
            self.project() is Some <==> self.proper() && self.tag() == N::spec_value(),
            self.project() is Some ==> *self == Self::inject(self.project()->Some_0),
    ;

    /// The remaining list is shorter by this one alternative.
    proof fn lemma_count()
        ensures
            Self::Remainder::spec_count() + 1 == Self::spec_count(),
    ;

    /// Taking this alternative out succeeds exactly if the value holds it. If not, the value
    /// goes over to the remaining list, where the alternatives behind this one have moved up
    /// by one position.
    proof fn lemma_take(self)
        requires
            self.proper(),
        ensures
            self.spec_take() is Ok <==> self.tag() == N::spec_value(),
            self.spec_take() is Ok ==> self.project() == Some(self.spec_take()->Ok_0),
            self.spec_take() is Err ==> {
                &&& self.spec_take()->Err_0.proper()
                &&& self.spec_take()->Err_0.tag() == (if self.tag() > N::spec_value() {
                    (self.tag() - 1) as nat
                } else {
                    self.tag()
                })
            },
    ;

    /// The value of the list that holds `value` as this alternative.
    fn new(value: T) -> (r: Self)
        ensures
            r == Self::inject(value),
    ;

    /// Takes this alternative out of the value, or hands the value over to the remaining list.
    fn take(self) -> (r: Result<T, Self::Remainder>)
        ensures
            r == self.spec_take(),
    ;

    /// What the value holds as this alternative, if this alternative is the one it holds.
    fn get(&self) -> (r: Option<&T>)
        ensures
            r is Some <==> self.project() is Some,
            r is Some ==> self.project() == Some(*r->Some_0),
    ;

    /// Access to what the value holds as this alternative, if this alternative is the one it
    /// holds. What is written through the reference becomes the held value.
    fn get_mut(&mut self) -> (r: Option<&mut T>)
        ensures
            r is Some <==> old(self).project() is Some,
            r is Some ==> old(self).project() == Some(*r->Some_0),
            r is Some ==> *final(self) == Self::inject(*final(r->Some_0)),
            r is None ==> *final(self) == *old(self),
    ;
}

impl<T, R: TypeList> Contains<T, Z> for CoProd<T, R> {
    type Remainder = R;

    open spec fn inject(value: T) -> Self {
        CoProd::Item(value)
    }

    open spec fn project(&self) -> Option<T> {
        match self {
            CoProd::Item(value) => Some(*value),
            CoProd::Rest(_) => None,
        }
    }

    open spec fn spec_take(self) -> Result<T, Self::Remainder> {
        match self {
            CoProd::Item(value) => Ok(value),
            CoProd::Rest(rest) => Err(rest),
        }
    }

    proof fn lemma_position() {
    }

    proof fn lemma_inject(value: T) {
    }

    proof fn lemma_project(&self) {
    }

    proof fn lemma_count() {
    }

    proof fn lemma_take(self) {
    }

    fn new(value: T) -> (r: Self) {
        CoProd::Item(value)
    }

    fn take(self) -> (r: Result<T, Self::Remainder>) {
        match self {
            CoProd::Item(value) => Ok(value),
            CoProd::Rest(rest) => Err(rest),
        }
    }

    fn get(&self) -> (r: Option<&T>) {
        match self {
            CoProd::Item(value) => Some(value),
            CoProd::Rest(_) => None,
        }
    }

    fn get_mut(&mut self) -> (r: Option<&mut T>) {
        match self {
            CoProd::Item(value) => Some(value),
            CoProd::Rest(_) => None,
        }
    }
}

impl<T, R: Contains<T, N>, U, N: Peano> Contains<T, S<N>> for CoProd<U, R> {
    type Remainder = CoProd<U, R::Remainder>;

    open spec fn inject(value: T) -> Self {
        CoProd::Rest(R::inject(value))
    }

    open spec fn project(&self) -> Option<T> {
        match self {
            CoProd::Item(_) => None,
            CoProd::Rest(rest) => rest.project(),
        }
    }

    open spec fn spec_take(self) -> Result<T, Self::Remainder> {
        match self {
            CoProd::Item(value) => Err(CoProd::Item(value)),
            CoProd::Rest(rest) => match rest.spec_take() {
                Ok(value) => Ok(value),
                Err(rem) => Err(CoProd::Rest(rem)),
            },
        }
    }

    proof fn lemma_position() {
        R::lemma_position();
    }

    proof fn lemma_inject(value: T) {
        R::lemma_inject(value);
    }

    proof fn lemma_project(&self) {
        match self {
            CoProd::Item(_) => {},
            CoProd::Rest(rest) => {
                rest.lemma_project();
            },
        }
    }

    proof fn lemma_count() {
        R::lemma_count();
    }

    proof fn lemma_take(self) {
        match self {
            CoProd::Item(_) => {},
            CoProd::Rest(rest) => {
                rest.lemma_take();
            },
        }
    }

    fn new(value: T) -> (r: Self) {
        CoProd::Rest(R::new(value))
    }

    fn take(self) -> (r: Result<T, Self::Remainder>) {
        match self {
            CoProd::Item(value) => Err(CoProd::Item(value)),
            CoProd::Rest(rest) => match rest.take() {
                Ok(value) => Ok(value),
                Err(rem) => Err(CoProd::Rest(rem)),
            },
        }
    }

    fn get(&self) -> (r: Option<&T>) {
        match self {
            CoProd::Item(_) => None,
            CoProd::Rest(rest) => rest.get(),
        }
    }

    fn get_mut(&mut self) -> (r: Option<&mut T>) {
        match self {
            CoProd::Item(_) => None,
            CoProd::Rest(rest) => rest.get_mut(),
        }
    }
}

/// Storage that is to be given up: its address and its layout.
pub struct DeallocOnDrop(pub usize, pub Layout);

impl DeallocOnDrop {
    /// Gives the storage up. Storage without memory was never a block, and none is taken back.
    pub fn release(self, heap: &mut Heap)
        requires
            old(heap).wf(),
            old(heap)@.backs(self.0, self.1),
        ensures
            final(heap).wf(),
            final(heap)@ == old(heap)@.after_release(self.0, self.1),
    {
        if self.1.size != 0 {
            heap.deallocate(self.0, self.1);
        }
    }
}

/// What a tagged word says of fresh storage of `layout` for the alternative at `index`: it
/// holds the tag and a nonzero aligned address, and the storage at that address was obtained
/// just now.
pub open spec fn spec_fresh(
    word: usize,
    layout: Layout,
    align: usize,
    index: usize,
    before: crate::heap::HeapView,
    after: crate::heap::HeapView,
) -> bool {
    let addr = spec_split(word, (align - 1) as usize).0;
    &&& word == spec_pack(addr, index)
    &&& spec_split(word, (align - 1) as usize) == (addr, index)
    &&& word != 0
    &&& addr != 0
    &&& is_aligned(addr, align)
    &&& layout.size == 0 ==> addr == align
    &&& layout.size != 0 ==> addr == before.next_addr(layout) && !before.live.dom().contains(addr)
    &&& after == before.after_acquire(addr, layout)
    &&& after.backs(addr, layout)
}

/// Obtains storage of `layout`, has `value` produce what goes into it, and tags the address
/// with `index`.
///
/// The storage is obtained before the value is produced. If the producer fails, the storage
/// is given up again and the failure is handed on: nothing stays behind.
pub fn raw_new_with<T, E, F: FnOnce() -> Result<T, E>>(
    value: F,
    layout: Layout,
    align: usize,
    index: usize,
    heap: &mut Heap,
) -> (r: Result<(usize, T), E>)
    requires
        value.requires(()),
        is_power_of_two(align),
        layout.valid(),
        layout.size != 0 ==> layout.align >= align,
        index < align,
        old(heap).wf(),
        old(heap)@.has_room_if_sized(layout),
    ensures
        final(heap).wf(),
        r is Ok ==> value.ensures((), Ok(r->Ok_0.1)) && spec_fresh(
            r->Ok_0.0,
            layout,
            align,
            index,
            old(heap)@,
            final(heap)@,
        ),
        r is Err ==> value.ensures((), Err(r->Err_0)) && final(heap)@ == old(heap)@.after_wasted(
            layout,
        ),
{
    let addr: usize = if layout.size == 0 {
        sentinel(align)
    } else {
        let addr = heap.allocate(layout);
        proof {
            crate::layout::lemma_aligned_to_smaller(addr, align, layout.align);
        }
        addr
    };
    let guard = DeallocOnDrop(addr, layout);
    match value() {
        Ok(v) => Ok((pack(addr, index, align), v)),
        Err(e) => {
            guard.release(heap);
            proof {
                assert(heap@.live =~= old(heap)@.live);
            }
            Err(e)
        },
    }
}

/// Obtains the storage that `strategy` asks for the alternative at `index`, has `value`
/// produce what goes into it, and tags the address with `index`.
///
/// The tag is packed for the alignment `align`: that of the list's tags, or that of the
/// storage itself, which is no less.
pub fn new_with<L, S, T, E, F>(value: F, align: usize, index: usize, strategy: &S, heap: &mut Heap) -> (r:
    Result<(usize, T), E>) where L: TypeList, F: FnOnce() -> Result<T, E>, S: AllocStrategy<L>
    requires
        value.requires(()),
        count_fits(L::spec_count()),
        index < L::spec_count(),
        align == spec_align(L::spec_count()) || align == S::spec_layout(index as nat).align,
        old(heap).wf(),
        old(heap)@.has_room_if_sized(S::spec_layout(index as nat)),
    ensures
        final(heap).wf(),
        S::spec_layout(index as nat).valid(),
        S::spec_layout(index as nat).align >= spec_align(L::spec_count()),
        is_power_of_two(align),
        r is Ok ==> value.ensures((), Ok(r->Ok_0.1)) && spec_fresh(
            r->Ok_0.0,
            S::spec_layout(index as nat),
            align,
            index,
            old(heap)@,
            final(heap)@,
        ),
        r is Err ==> value.ensures((), Err(r->Err_0)) && final(heap)@ == old(heap)@.after_wasted(
            S::spec_layout(index as nat),
        ),
{
    let layout = strategy.layout(index);
    proof {
        crate::tag::lemma_spec_align(L::spec_count());
        crate::tag::lemma_align_is_power_of_two(L::spec_count());
    }
    raw_new_with(value, layout, align, index, heap)
}

/// Ends the life of a value of `L` and gives up the storage that `strategy` asked for the
/// alternative at `index`.
pub fn destroy<L: TypeList, S: AllocStrategy<L>>(
    ptr: usize,
    index: usize,
    strategy: &S,
    value: L,
    heap: &mut Heap,
)
    requires
        count_fits(L::spec_count()),
        index < L::spec_count(),
        old(heap).wf(),
        old(heap)@.backs(ptr, S::spec_layout(index as nat)),
    ensures
        final(heap).wf(),
        final(heap)@ == old(heap)@.after_release(ptr, S::spec_layout(index as nat)),
{
    let layout = strategy.layout(index);
    let guard = DeallocOnDrop(ptr, layout);
    let _ = value;
    guard.release(heap);
}

/// Makes `this` a clone of `source` in place, as `Clone::clone_from` does: what `this` holds
/// afterwards is what cloning `source` gives, made with what `this` held where the type can.
#[verifier::external_body]
fn clone_assign<T: Clone>(this: &mut T, source: &T)
    ensures
        cloned::<T>(*source, *final(this)),
{
    this.clone_from(source)
}

/// The values of this list can be cloned: every alternative can.
pub trait CloneImp: Tuple {
    /// `other` may be a clone of this value: it holds the same alternative, and what it holds
    /// may be a clone of what this value holds.
    spec fn spec_cloned(self, other: Self) -> bool;

    /// A clone of a value holds the alternative that the value holds.
    proof fn lemma_cloned(self, other: Self)
        ensures
            self.proper() && self.spec_cloned(other) ==> other.proper() && other.tag() == self.tag(),
    ;

    /// A clone of the value.
    fn clone(&self) -> (r: Self)
        requires
            self.proper(),
        ensures
            self.spec_cloned(r),
    ;

    /// Makes this value a clone of `source`. Where both hold the same alternative, what this
    /// value holds is made a clone in place, by the alternative's own way of doing so;
    /// otherwise a clone takes the place of the value.
    fn clone_from(&mut self, source: &Self)
        requires
            old(self).proper(),
            source.proper(),
        ensures
            source.spec_cloned(*final(self)),
    ;
}

impl<T: Clone> CloneImp for CoProd<T, CNil> {
    open spec fn spec_cloned(self, other: Self) -> bool {
        match (self, other) {
            (CoProd::Item(value), CoProd::Item(copy)) => cloned::<T>(value, copy),
            _ => false,
        }
    }

    proof fn lemma_cloned(self, other: Self) {
    }

    fn clone(&self) -> (r: Self) {
        match self {
            CoProd::Item(value) => CoProd::Item(value.clone()),
            CoProd::Rest(_) => vstd::pervasive::unreached(),
        }
    }

    fn clone_from(&mut self, source: &Self) {
        match source {
            CoProd::Item(value) => match self {
                CoProd::Item(this) => {
                    clone_assign(this, value);
                },
                CoProd::Rest(_) => {
                    *self = CoProd::Item(value.clone());
                },
            },
            CoProd::Rest(_) => {},
        }
    }
}

impl<T: Clone, U, R> CloneImp for CoProd<T, CoProd<U, R>> where CoProd<U, R>: CloneImp {
    open spec fn spec_cloned(self, other: Self) -> bool {
        match (self, other) {
            (CoProd::Item(value), CoProd::Item(copy)) => cloned::<T>(value, copy),
            (CoProd::Rest(rest), CoProd::Rest(copy)) => rest.spec_cloned(copy),
            _ => false,
        }
    }

    proof fn lemma_cloned(self, other: Self) {
        match (self, other) {
            (CoProd::Rest(rest), CoProd::Rest(copy)) => {
                rest.lemma_cloned(copy);
            },
            _ => {},
        }
    }

    fn clone(&self) -> (r: Self) {
        match self {
            CoProd::Item(value) => CoProd::Item(value.clone()),
            CoProd::Rest(rest) => CoProd::Rest(rest.clone()),
        }
    }

    fn clone_from(&mut self, source: &Self) {
        match source {
            CoProd::Item(value) => match self {
                CoProd::Item(this) => {
                    clone_assign(this, value);
                },
                CoProd::Rest(_) => {
                    *self = CoProd::Item(value.clone());
                },
            },
            CoProd::Rest(rest) => match self {
                CoProd::Rest(this) => {
                    this.clone_from(rest);
                },
                CoProd::Item(_) => {
                    *self = CoProd::Rest(rest.clone());
                },
            },
        }
    }
}

/// The values of this list can be looked at as values of the list of references to the
/// alternatives.
pub trait GetAny<'a>: Tuple {
    /// The list of shared references to the alternatives.
    type Ref: Tuple;

    /// The value that holds a reference to what this value holds.
    spec fn spec_get_any(&'a self) -> Self::Ref;

    /// The value of references holds the reference at the position of what it refers to.
    proof fn lemma_get_any(&'a self)
        ensures
            self.proper() ==> self.spec_get_any().proper() && self.spec_get_any().tag()
                == self.tag(),
    ;

    /// The value that holds a reference to what this value holds.
    fn get_any(&'a self) -> (r: Self::Ref)
        requires
            self.proper(),
        ensures
            r == self.spec_get_any(),
    ;

    /// The list of exclusive references to the alternatives.
    type RefMut: Tuple;

    /// The value that `refs` refers to, as it is now.
    spec fn spec_referred(refs: Self::RefMut) -> Self;

    /// The value that holds an exclusive reference to what this value holds. Writing through
    /// the reference changes what is held, not which alternative.
    fn get_any_mut(&'a mut self) -> (r: Self::RefMut)
        requires
            old(self).proper(),
        ensures
            r.proper(),
            r.tag() == old(self).tag(),
            Self::spec_referred(r) == *old(self),
            final(self).proper(),
            final(self).tag() == old(self).tag(),
    ;
}

impl<'a, A: 'a> GetAny<'a> for CoProd<A, CNil> {
    type Ref = CoProd<&'a A, CNil>;

    open spec fn spec_get_any(&'a self) -> CoProd<&'a A, CNil> {
        match self {
            CoProd::Item(value) => CoProd::Item(value),
            CoProd::Rest(rest) => CoProd::Rest(*rest),
        }
    }

    proof fn lemma_get_any(&'a self) {
    }

    fn get_any(&'a self) -> (r: CoProd<&'a A, CNil>) {
        match self {
            CoProd::Item(value) => CoProd::Item(value),
            CoProd::Rest(_) => vstd::pervasive::unreached(),
        }
    }

    type RefMut = CoProd<&'a mut A, CNil>;

    open spec fn spec_referred(refs: CoProd<&'a mut A, CNil>) -> Self {
        match refs {
            CoProd::Item(value) => CoProd::Item(*value),
            CoProd::Rest(rest) => CoProd::Rest(rest),
        }
    }

    fn get_any_mut(&'a mut self) -> (r: CoProd<&'a mut A, CNil>) {
        match self {
            CoProd::Item(value) => CoProd::Item(value),
            CoProd::Rest(_) => vstd::pervasive::unreached(),
        }
    }
}

impl<'a, A: 'a, B: 'a, R: 'a> GetAny<'a> for CoProd<A, CoProd<B, R>> where
    CoProd<B, R>: GetAny<'a>,
 {
    type Ref = CoProd<&'a A, <CoProd<B, R> as GetAny<'a>>::Ref>;

    open spec fn spec_get_any(&'a self) -> CoProd<&'a A, <CoProd<B, R> as GetAny<'a>>::Ref> {
        match self {
            CoProd::Item(value) => CoProd::Item(value),
            CoProd::Rest(rest) => CoProd::Rest(rest.spec_get_any()),
        }
    }

    proof fn lemma_get_any(&'a self) {
        match self {
            CoProd::Item(_) => {},
            CoProd::Rest(rest) => {
                rest.lemma_get_any();
            },
        }
    }

    fn get_any(&'a self) -> (r: CoProd<&'a A, <CoProd<B, R> as GetAny<'a>>::Ref>) {
        match self {
            CoProd::Item(value) => CoProd::Item(value),
            CoProd::Rest(rest) => CoProd::Rest(rest.get_any()),
        }
    }

    type RefMut = CoProd<&'a mut A, <CoProd<B, R> as GetAny<'a>>::RefMut>;

    open spec fn spec_referred(
        refs: CoProd<&'a mut A, <CoProd<B, R> as GetAny<'a>>::RefMut>,
    ) -> Self {
        match refs {
            CoProd::Item(value) => CoProd::Item(*value),
            CoProd::Rest(rest) => CoProd::Rest(<CoProd<B, R> as GetAny<'a>>::spec_referred(rest)),
        }
    }

    fn get_any_mut(&'a mut self) -> (r: CoProd<
        &'a mut A,
        <CoProd<B, R> as GetAny<'a>>::RefMut,
    >) {
        match self {
            CoProd::Item(value) => CoProd::Item(value),
            CoProd::Rest(rest) => CoProd::Rest(rest.get_any_mut()),
        }
    }
}

} // verus!
