use vari::heap::Heap;
use vari::internals::{
    destroy, layout, new_with, raw_new_with, CNil, CoProd, Contains, DeallocOnDrop, Peano, Repr,
    SizeClass, Tuple, S, Z,
};
use vari::layout::{power_of_two, Layout};
use vari::strategy::{AllocStrategy, BiggestVariant, Minimal};
use vari::tag::{pack, sentinel, size_class_and_align, split};

type Plain = CoProd<u8, CoProd<i8, CoProd<u32, CNil>>>;
type Five = CoProd<u8, CoProd<u16, CoProd<u32, CoProd<u64, CoProd<(), CNil>>>>>;

#[test]
fn size_class_is_the_ceiling_of_the_logarithm() {
    assert_eq!(size_class_and_align(0), (0, 1));
    assert_eq!(size_class_and_align(1), (0, 1));
    assert_eq!(size_class_and_align(2), (1, 2));
    assert_eq!(size_class_and_align(3), (2, 4));
    assert_eq!(size_class_and_align(4), (2, 4));
    assert_eq!(size_class_and_align(5), (3, 8));
    assert_eq!(size_class_and_align(8), (3, 8));
    assert_eq!(size_class_and_align(9), (4, 16));
    assert_eq!(size_class_and_align(64), (6, 64));
    assert_eq!(size_class_and_align(65), (7, 128));
    let top = usize::MAX / 2 + 1;
    assert_eq!(size_class_and_align(top), (usize::BITS - 1, top));
}

#[test]
fn pack_and_split_round_trip() {
    let word = pack(0x1000, 5, 8);
    assert_eq!(word, 0x1005);
    assert_eq!(split(word, 7), (0x1000, 5));
    assert_eq!(pack(8, 0, 8), 8);
    assert_eq!(split(pack(48, 15, 16), 15), (48, 15));
    for tag in 0..4usize {
        assert_eq!(split(pack(0x40, tag, 4), 3), (0x40, tag));
    }
}

#[test]
fn sentinel_is_the_alignment() {
    assert_eq!(sentinel(1), 1);
    assert_eq!(sentinel(2), 2);
    assert_eq!(sentinel(8), 8);
    assert_eq!(sentinel(4096), 4096);
}

#[test]
fn powers_of_two() {
    assert!(!power_of_two(0));
    assert!(power_of_two(1));
    assert!(power_of_two(2));
    assert!(!power_of_two(3));
    assert!(power_of_two(64));
    assert!(!power_of_two(96));
    assert!(power_of_two(usize::MAX / 2 + 1));
    assert!(!power_of_two(usize::MAX));
}

#[test]
fn layouts_need_a_power_of_two() {
    assert_eq!(Layout::from_size_align(3, 4), Some(Layout { size: 3, align: 4 }));
    assert_eq!(Layout::from_size_align(3, 0), None);
    assert_eq!(Layout::from_size_align(3, 6), None);
    let l = Layout { size: 3, align: 4 };
    assert_eq!(l.size(), 3);
    assert_eq!(l.align(), 4);
    let m = l.max(Layout { size: 1, align: 16 });
    assert_eq!(m, Layout { size: 3, align: 16 });
}

#[test]
fn layout_of_a_type_raises_the_alignment() {
    assert_eq!(layout::<u8>(1), Layout { size: 1, align: 1 });
    assert_eq!(layout::<u8>(4), Layout { size: 1, align: 4 });
    assert_eq!(layout::<u32>(1), Layout { size: 4, align: core::mem::align_of::<u32>() });
    assert_eq!(layout::<()>(2), Layout { size: 0, align: 2 });
}

#[test]
fn counts_and_tag_alignments_of_lists() {
    assert_eq!(<CNil as Tuple>::count(), 0);
    assert_eq!(<Plain as Tuple>::count(), 3);
    assert_eq!(<Five as Tuple>::count(), 5);
    assert_eq!(<Plain as SizeClass>::size_class(), 2);
    assert_eq!(<Plain as SizeClass>::align(), 4);
    assert_eq!(<Five as SizeClass>::size_class(), 3);
    assert_eq!(<Five as SizeClass>::align(), 8);
    assert_eq!(<CoProd<u8, CNil> as SizeClass>::align(), 1);
}

#[test]
fn peano_numbers() {
    assert_eq!(<Z as Peano>::value(), 0);
    assert_eq!(<S<Z> as Peano>::value(), 1);
    assert_eq!(<S<S<S<Z>>> as Peano>::value(), 3);
}

#[test]
fn layouts_of_alternatives() {
    assert_eq!(<Plain as Repr>::layout_min(0, 4), Layout { size: 1, align: 4 });
    assert_eq!(<Plain as Repr>::layout_min(1, 4), Layout { size: 1, align: 4 });
    assert_eq!(<Plain as Repr>::layout_min(2, 4), Layout { size: 4, align: 4 });
    assert_eq!(<Plain as Repr>::layout_min(2, 16), Layout { size: 4, align: 16 });
    assert_eq!(
        <Plain as Repr>::layout_max(Layout { size: 0, align: 4 }),
        Layout { size: 4, align: 4 }
    );
    assert_eq!(
        <Plain as Repr>::layout_max(Layout { size: 9, align: 1 }),
        Layout { size: 9, align: core::mem::align_of::<u32>() }
    );
}

#[test]
fn policies_choose_layouts() {
    for index in 0..3usize {
        assert_eq!(
            <BiggestVariant as AllocStrategy<Plain>>::layout(&BiggestVariant, index),
            Layout { size: 4, align: 4 }
        );
    }
    assert_eq!(
        <Minimal as AllocStrategy<Plain>>::layout(&Minimal, 0),
        Layout { size: 1, align: 4 }
    );
    assert_eq!(
        <Minimal as AllocStrategy<Plain>>::layout(&Minimal, 2),
        Layout { size: 4, align: 4 }
    );
    assert_eq!(
        <Minimal as AllocStrategy<Five>>::layout(&Minimal, 4),
        Layout { size: 0, align: 8 }
    );
    assert!(<BiggestVariant as AllocStrategy<Plain>>::matches_index_layout(&BiggestVariant, 0, 2));
    assert!(<Minimal as AllocStrategy<Plain>>::matches_index_layout(&Minimal, 0, 1));
    assert!(<Minimal as AllocStrategy<Plain>>::matches_index_layout(&Minimal, 2, 2));
    assert!(!<Minimal as AllocStrategy<Plain>>::matches_index_layout(&Minimal, 0, 2));
}

#[test]
fn contains_puts_in_and_takes_out() {
    let v: Plain = <Plain as Contains<u32, _>>::new(9u32);
    assert!(matches!(v, CoProd::Rest(CoProd::Rest(CoProd::Item(9)))));
    assert_eq!(<Plain as Contains<u32, _>>::get(&v), Some(&9));
    assert_eq!(<Plain as Contains<u8, _>>::get(&v), None);
    let mut v = v;
    if let Some(x) = <Plain as Contains<u32, _>>::get_mut(&mut v) {
        *x = 10;
    }
    assert!(<Plain as Contains<i8, _>>::get_mut(&mut v).is_none());
    match <Plain as Contains<i8, _>>::take(v) {
        Ok(_) => panic!(),
        Err(rest) => {
            assert!(matches!(rest, CoProd::Rest(CoProd::Item(10u32))));
            match <CoProd<u8, CoProd<u32, CNil>> as Contains<u32, _>>::take(rest) {
                Ok(x) => assert_eq!(x, 10),
                Err(_) => panic!(),
            }
        },
    }
}

#[test]
fn heap_hands_out_aligned_blocks_in_order() {
    let mut heap = Heap::new();
    assert_eq!((heap.num_allocs(), heap.num_frees()), (0, 0));
    let a = heap.allocate(Layout { size: 3, align: 4 });
    assert_eq!(a, 4);
    let b = heap.allocate(Layout { size: 1, align: 1 });
    assert_eq!(b, 7);
    let c = heap.allocate(Layout { size: 16, align: 16 });
    assert_eq!(c, 16);
    let d = heap.allocate(Layout { size: 1, align: 16 });
    assert_eq!(d, 32);
    heap.deallocate(b, Layout { size: 1, align: 1 });
    assert_eq!((heap.num_allocs(), heap.num_frees()), (4, 1));
    let e = heap.allocate(Layout { size: 1, align: 1 });
    assert_eq!(e, 33);
}

#[test]
fn heap_knows_when_it_is_full() {
    let mut heap = Heap::new();
    assert!(heap.can_alloc(Layout { size: 8, align: 8 }));
    assert!(heap.can_alloc(Layout { size: usize::MAX - 1, align: 1 }));
    assert!(!heap.can_alloc(Layout { size: usize::MAX, align: 1 }));
    assert!(!heap.can_alloc(Layout { size: usize::MAX - 8, align: 16 }));
    let at = heap.allocate(Layout { size: usize::MAX - 1, align: 1 });
    assert_eq!(at, 1);
    assert!(!heap.can_alloc(Layout { size: 1, align: 1 }));
}

#[test]
fn guard_gives_up_only_real_blocks() {
    let mut heap = Heap::new();
    let l = Layout { size: 2, align: 2 };
    let at = heap.allocate(l);
    DeallocOnDrop(8, Layout { size: 0, align: 8 }).release(&mut heap);
    assert_eq!((heap.num_allocs(), heap.num_frees()), (1, 0));
    DeallocOnDrop(at, l).release(&mut heap);
    assert_eq!((heap.num_allocs(), heap.num_frees()), (1, 1));
}

#[test]
fn raw_storage_is_tagged_and_given_up_on_failure() {
    let mut heap = Heap::new();
    let l = Layout { size: 4, align: 8 };
    let r: Result<(usize, u32), ()> = raw_new_with(|| Ok(7u32), l, 8, 5, &mut heap);
    assert_eq!(r, Ok((8 | 5, 7)));
    let r: Result<(usize, u32), &str> = raw_new_with(|| Err("no"), l, 8, 5, &mut heap);
    assert_eq!(r, Err("no"));
    assert_eq!((heap.num_allocs(), heap.num_frees()), (2, 1));
    let zero = Layout { size: 0, align: 8 };
    let r: Result<(usize, ()), ()> = raw_new_with(|| Ok(()), zero, 4, 3, &mut heap);
    assert_eq!(r, Ok((4 | 3, ())));
    assert_eq!((heap.num_allocs(), heap.num_frees()), (2, 1));
}

#[test]
fn storage_by_policy_and_its_end() {
    let mut heap = Heap::new();
    let r: Result<(usize, u32), ()> =
        new_with::<Plain, Minimal, u32, (), _>(|| Ok(1u32), 4, 2, &Minimal, &mut heap);
    let (word, value) = r.unwrap();
    assert_eq!(value, 1);
    assert_eq!(split(word, 3), (4, 2));
    let held: Plain = <Plain as Contains<u32, _>>::new(value);
    destroy::<Plain, Minimal>(4, 2, &Minimal, held, &mut heap);
    assert_eq!((heap.num_allocs(), heap.num_frees()), (1, 1));
}

#[test]
fn storage_without_memory_takes_any_alignment() {
    let mut heap = Heap::new();
    let r: Result<(usize, ()), ()> =
        raw_new_with(|| Ok(()), Layout { size: 0, align: 1 }, 4, 3, &mut heap);
    let (word, _) = r.unwrap();
    assert_eq!(word & 3, 3);
    assert!(word & !3 != 0);
    assert_eq!(word, 4 | 3);
    assert_eq!((heap.num_allocs(), heap.num_frees()), (0, 0));
}
