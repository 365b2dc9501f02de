use core::cmp::Ordering;
use std::collections::hash_map::DefaultHasher;
use std::hash::{Hash, Hasher};
use vari::heap::Heap;
use vari::internals::{CNil, CoProd};
use vari::pin::PinVari;
use vari::strategy::Minimal;
use vari::Vari;

type Plain = CoProd<u8, CoProd<i8, CoProd<u32, CNil>>>;

#[test]
fn pinned_cell_forwards() {
    let mut heap = Heap::new();
    let cell: Vari<Plain> = Vari::new(5u32, &mut heap);
    let at = cell.as_ptr();
    let mut pinned: PinVari<Plain> = cell.pin();
    assert_eq!(pinned.as_ptr(), at);
    assert_eq!(pinned.index(), 2);
    assert_eq!(PinVari::<Plain>::index_of::<i8, _>(), 1);
    assert!(pinned.is::<u32, _>());
    assert!(!pinned.is::<u8, _>());
    assert_eq!(*pinned.get::<u32, _>(), 5);
    assert_eq!(pinned.try_get::<u8, _>(), None);
    assert_eq!(pinned.try_get::<u32, _>(), Some(&5));

    pinned.set(-2i8, &mut heap);
    assert_eq!(pinned.index(), 1);
    assert_eq!(*pinned.get::<i8, _>(), -2);
    assert_eq!(pinned.as_ptr(), at);

    *pinned.get_mut::<i8, _>() = 3;
    assert_eq!(*pinned.get::<i8, _>(), 3);
    assert!(pinned.try_get_mut::<u8, _>().is_none());

    let cell = pinned.into_inner();
    assert_eq!(*cell.get::<i8, _>(), 3);
    cell.pin().destroy(&mut heap);
    assert_eq!((heap.num_allocs(), heap.num_frees()), (1, 1));
}

#[test]
fn pinned_cells_clone_and_compare() {
    let mut heap = Heap::new();
    let a: PinVari<Plain, Minimal> = Vari::with_strategy(|| 5u8, Minimal, &mut heap).pin();
    let z: PinVari<Plain, Minimal> = Vari::with_strategy(|| 6u32, Minimal, &mut heap).pin();
    let mut b = a.clone(&mut heap);
    assert!(a.eq(&b));
    assert!(!a.eq(&z));
    b.clone_from(&z, &mut heap);
    assert!(b.eq(&z));
    assert_eq!(b.index(), 2);
    let plain: Vari<Plain, Minimal> = Vari::with_strategy(|| 6u32, Minimal, &mut heap);
    assert!(b.eq_unpinned(&plain));
    assert!(!a.eq_unpinned(&plain));
    assert_eq!((heap.num_allocs(), heap.num_frees()), (5, 1));
}

#[test]
fn pinned_cells_are_ordered_and_hashed_like_cells() {
    let mut heap = Heap::new();
    let a: PinVari<Plain> = Vari::new(5u8, &mut heap).pin();
    let b: PinVari<Plain> = Vari::new(6u8, &mut heap).pin();
    let c: PinVari<Plain> = Vari::new(1u32, &mut heap).pin();
    let plain: Vari<Plain> = Vari::new(5u8, &mut heap);
    assert_eq!(a.cmp(&b), Ordering::Less);
    assert_eq!(c.cmp(&b), Ordering::Greater);
    assert_eq!(a.cmp(&a), Ordering::Equal);
    assert_eq!(a.partial_cmp(&c), Some(Ordering::Less));
    assert_eq!(b.partial_cmp_unpinned(&plain), Some(Ordering::Greater));
    assert_eq!(a.partial_cmp_unpinned(&plain), Some(Ordering::Equal));

    let mut through = DefaultHasher::new();
    c.hash(&mut through);
    let mut direct = DefaultHasher::new();
    Hash::hash(&1u32, &mut direct);
    assert_eq!(through.finish(), direct.finish());
    assert_ne!(through.finish(), DefaultHasher::new().finish());
    let owned = c.hash(DefaultHasher::new());
    assert_eq!(owned.finish(), direct.finish());
}

#[test]
fn pinned_cell_shows_any_alternative() {
    let mut heap = Heap::new();
    let mut pinned: PinVari<Plain> = Vari::new(-3i8, &mut heap).pin();
    match pinned.get_any() {
        CoProd::Rest(CoProd::Item(v)) => assert_eq!(*v, -3),
        _ => panic!(),
    }
    match pinned.get_any_mut() {
        CoProd::Rest(CoProd::Item(v)) => *v = 4,
        _ => panic!(),
    }
    assert_eq!(*pinned.get::<i8, _>(), 4);
}
