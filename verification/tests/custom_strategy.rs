use vari::heap::Heap;
use vari::internals::{CNil, CoProd, TypeList};
use vari::layout::Layout;
use vari::strategy::{AllocStrategy, BiggestVariant};
use vari::Vari;

#[derive(Default, Clone)]
struct Strat(Box<i32>);

impl<L: TypeList> AllocStrategy<L> for Strat {
    fn spec_layout(_: vstd::prelude::nat) -> Layout {
        unreachable!()
    }

    fn layout_unchecked(&self, index: usize) -> Layout {
        <BiggestVariant as AllocStrategy<L>>::layout_unchecked(&BiggestVariant, index)
    }

    fn matches_index_layout(&self, current: usize, other: usize) -> bool {
        <BiggestVariant as AllocStrategy<L>>::matches_index_layout(&BiggestVariant, current, other)
    }
}

type Three = CoProd<u8, CoProd<i8, CoProd<Box<u32>, CNil>>>;
type Plain = CoProd<u8, CoProd<i8, CoProd<u32, CNil>>>;

#[test]
fn custom_create_new() {
    let mut heap = Heap::new();
    let a: Vari<Three, Strat> = Vari::with_strategy(|| 10u8, Strat::default(), &mut heap);
    let b: Vari<Three, Strat> =
        Vari::with_strategy(|| Box::new(0u32), Strat::default(), &mut heap);
    assert_eq!(a.index(), 0);
    assert_eq!(b.index(), 2);
}

#[test]
fn custom_set() {
    let mut heap = Heap::new();
    let mut x: Vari<Three, Strat> = Vari::with_strategy(|| 0xae_u8, Strat::default(), &mut heap);
    assert_eq!(*x.get::<u8, _>(), 0xae);
    x.set(0x2f_u8, &mut heap);
    assert_eq!(*x.get::<u8, _>(), 0x2f);
    x.set(-0xa_i8, &mut heap);
    assert_eq!(*x.get::<i8, _>(), -0xa);
    x.set(Box::new(0xefda_u32), &mut heap);
    assert_eq!(**x.get::<Box<u32>, _>(), 0xefda);
    x.set(-0xa_i8, &mut heap);
    assert_eq!(*x.get::<i8, _>(), -0xa);
    assert_eq!((heap.num_allocs(), heap.num_frees()), (1, 0));
}

#[test]
fn custom_clone() {
    let mut heap = Heap::new();
    let w: Vari<Plain, Strat> = Vari::with_strategy(|| 0xae_u8, Strat::default(), &mut heap);
    let z: Vari<Plain, Strat> =
        Vari::with_strategy(|| 0xabcdef01_u32, Strat::default(), &mut heap);
    let mut a = w.clone(&mut heap);
    assert_eq!(*a.get::<u8, _>(), 0xae);
    a.clone_from(&z, &mut heap);
    assert_eq!(*a.get::<u32, _>(), 0xabcdef01);
    assert!(a.eq(&z));
    assert!(!a.eq(&w));
}

#[test]
fn custom_into_superset() {
    type Mid = CoProd<i32, CoProd<u32, CNil>>;
    type Sup = CoProd<u32, CoProd<i32, CoProd<u8, CNil>>>;
    let mut heap = Heap::new();
    let x: Vari<Mid, Strat> = Vari::with_strategy(|| 212_u32, Strat::default(), &mut heap);
    let x: Vari<Sup, Strat> = x.into_superset(&mut heap);
    assert_eq!(*x.get::<u32, _>(), 212);
}

#[test]
fn custom_policy_stays_with_the_cell() {
    let mut heap = Heap::new();
    let mut a: Vari<Plain, Strat> = Vari::with_strategy(|| 1u8, Strat(Box::new(7)), &mut heap);
    assert_eq!(*a.strategy().0, 7);
    a.set(2u32, &mut heap);
    assert_eq!(*a.strategy().0, 7);
    let b = a.clone(&mut heap);
    assert_eq!(*b.strategy().0, 7);
    let c: Vari<Plain, Strat> = Vari::using_strategy(3i8, Strat(Box::new(9)), &mut heap);
    a.clone_from(&c, &mut heap);
    assert_eq!(*a.strategy().0, 9);
    assert_eq!(*a.get::<i8, _>(), 3);
    type Sup = CoProd<u32, CoProd<i8, CoProd<u8, CoProd<u64, CNil>>>>;
    let d: Vari<Sup, Strat> = a.into_superset(&mut heap);
    assert_eq!(*d.strategy().0, 9);
}
