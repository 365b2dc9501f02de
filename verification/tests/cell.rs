use vari::heap::Heap;
use vari::internals::{CNil, CoProd};
use vari::strategy::Minimal;
use vari::Vari;

type Two = CoProd<u8, CoProd<Box<i32>, CNil>>;
type Three = CoProd<u8, CoProd<i8, CoProd<Box<u32>, CNil>>>;
type Plain = CoProd<u8, CoProd<i8, CoProd<u32, CNil>>>;

struct A(u8);
struct B(u8);
struct C(u8);

#[test]
fn create_new() {
    let mut heap = Heap::new();
    let a: Vari<Two> = Vari::new(10u8, &mut heap);
    let b: Vari<Two> = Vari::new(Box::new(0i32), &mut heap);
    assert_eq!(a.index(), 0);
    assert_eq!(b.index(), 1);
    assert_eq!(heap.num_allocs(), 2);
    a.destroy(&mut heap);
    b.destroy(&mut heap);
    assert_eq!(heap.num_allocs(), 2);
    assert_eq!(heap.num_frees(), 2);
}

#[test]
fn get() {
    let mut heap = Heap::new();
    let x: Vari<Two> = Vari::new(10u8, &mut heap);
    assert_eq!(*x.get::<u8, _>(), 10);
    assert!(x.try_get::<Box<i32>, _>().is_none());
    assert_eq!(x.try_get::<u8, _>(), Some(&10));
}

#[test]
fn set() {
    let mut heap = Heap::new();
    let mut x: Vari<Three> = Vari::new(0xae_u8, &mut heap);
    assert_eq!(*x.get::<u8, _>(), 0xae);
    x.set(0x2f_u8, &mut heap);
    assert_eq!(*x.get::<u8, _>(), 0x2f);
    x.set(-0xa_i8, &mut heap);
    assert_eq!(*x.get::<i8, _>(), -0xa);
    x.set(Box::new(0xefda_u32), &mut heap);
    assert_eq!(**x.get::<Box<u32>, _>(), 0xefda);
    x.set(-0xa_i8, &mut heap);
    assert_eq!(*x.get::<i8, _>(), -0xa);
}

#[test]
fn set_never_allocates_under_the_default_policy() {
    let mut heap = Heap::new();
    let mut x: Vari<Three> = Vari::new(0xae_u8, &mut heap);
    let at = x.as_ptr();
    assert_eq!(heap.num_allocs(), 1);
    x.set(-0xa_i8, &mut heap);
    x.set(Box::new(0xefda_u32), &mut heap);
    x.set(1u8, &mut heap);
    x.set(Box::new(7u32), &mut heap);
    assert_eq!(heap.num_allocs(), 1);
    assert_eq!(heap.num_frees(), 0);
    assert_eq!(x.as_ptr(), at);
    assert_eq!(x.index(), 2);
    x.destroy(&mut heap);
    assert_eq!(heap.num_frees(), 1);
}

#[test]
fn clone() {
    let mut heap = Heap::new();
    let w: Vari<Plain> = Vari::new(0xae_u8, &mut heap);
    let x: Vari<Plain> = Vari::new(0xad_u8, &mut heap);
    let y: Vari<Plain> = Vari::new(-0x72_i8, &mut heap);
    let z: Vari<Plain> = Vari::new(0xabcdef01_u32, &mut heap);

    let mut a = w.clone(&mut heap);
    assert_eq!(*a.get::<u8, _>(), 0xae);
    assert!(a.as_ptr() != w.as_ptr());
    a.clone_from(&x, &mut heap);
    assert_eq!(*a.get::<u8, _>(), 0xad);
    a.clone_from(&y, &mut heap);
    assert_eq!(*a.get::<i8, _>(), -0x72);
    a.clone_from(&z, &mut heap);
    assert_eq!(*a.get::<u32, _>(), 0xabcdef01);
    assert_eq!(a.index(), 2);
    assert_eq!(heap.num_allocs(), 5);
    assert_eq!(heap.num_frees(), 0);
}

#[test]
fn clone_keeps_the_tag() {
    let mut heap = Heap::new();
    let z: Vari<Plain> = Vari::new(0xabcdef01_u32, &mut heap);
    let c = z.clone(&mut heap);
    assert_eq!(c.index(), 2);
    assert_eq!(*c.get::<u32, _>(), 0xabcdef01);
    assert!(c.eq(&z));
}

#[test]
fn eq() {
    let mut heap = Heap::new();
    let w: Vari<Plain> = Vari::new(0xae_u8, &mut heap);
    let x = w.clone(&mut heap);
    let y: Vari<Plain> = Vari::new(0x72_u8, &mut heap);
    let z: Vari<Plain> = Vari::new(-0x72_i8, &mut heap);

    assert_eq!(w.index(), Vari::<Plain>::index_of::<u8, _>());
    assert_eq!(x.index(), Vari::<Plain>::index_of::<u8, _>());
    assert_eq!(y.index(), Vari::<Plain>::index_of::<u8, _>());
    assert_eq!(z.index(), Vari::<Plain>::index_of::<i8, _>());

    assert_eq!(w.index(), x.index());
    assert_eq!(w.index(), y.index());
    assert_ne!(w.index(), z.index());
    assert_ne!(y.index(), z.index());

    assert!(w.eq(&w));
    assert!(w.eq(&x));
    assert!(!w.eq(&y));
    assert!(!w.eq(&z));

    assert!(x.eq(&w));
    assert!(x.eq(&x));
    assert!(!x.eq(&y));
    assert!(!x.eq(&z));

    assert!(!y.eq(&w));
    assert!(!y.eq(&x));
    assert!(y.eq(&y));
    assert!(!y.eq(&z));

    assert!(!z.eq(&w));
    assert!(!z.eq(&x));
    assert!(!z.eq(&y));
    assert!(z.eq(&z));
}

#[test]
fn eq_across_policies() {
    let mut heap = Heap::new();
    let a: Vari<Plain> = Vari::new(7u32, &mut heap);
    let b: Vari<Plain, Minimal> = Vari::with_strategy(|| 7u32, Minimal, &mut heap);
    let c: Vari<Plain, Minimal> = Vari::with_strategy(|| 8u32, Minimal, &mut heap);
    assert!(a.eq(&b));
    assert!(!a.eq(&c));
}

#[test]
fn into_superset() {
    type Sub = CoProd<i32, CNil>;
    type Mid = CoProd<i32, CoProd<u32, CNil>>;
    type Mid2 = CoProd<u32, CoProd<i32, CNil>>;
    type Sup = CoProd<u32, CoProd<i32, CoProd<u8, CNil>>>;

    let mut heap = Heap::new();
    let x: Vari<Mid> = Vari::new(212_u32, &mut heap);
    assert_eq!(x.index(), 1);
    let x: Vari<Sup> = x.into_superset(&mut heap);
    assert_eq!(x.index(), 0);
    assert_eq!(*x.get::<u32, _>(), 212);

    let x: Vari<Mid2> = match x.try_into_subset(&mut heap) {
        Ok(x) => x,
        Err(_) => panic!(),
    };
    assert_eq!(x.index(), 0);
    assert_eq!(*x.get::<u32, _>(), 212);

    let allocs = heap.num_allocs();
    let frees = heap.num_frees();
    let at = x.as_ptr();
    match x.try_into_subset::<Sub, _>(&mut heap) {
        Ok(_) => panic!(),
        Err(x) => {
            assert_eq!(x.index(), 0);
            assert_eq!(*x.get::<u32, _>(), 212);
            assert_eq!(x.as_ptr(), at);
        },
    }
    assert_eq!(heap.num_allocs(), allocs);
    assert_eq!(heap.num_frees(), frees);
}

#[test]
fn subset_keeps_alternatives_behind_a_dropped_one() {
    type Sup = CoProd<u32, CoProd<i32, CoProd<u8, CNil>>>;
    type Tail = CoProd<i32, CoProd<u8, CNil>>;
    type Last = CoProd<u8, CNil>;

    let mut heap = Heap::new();
    let x: Vari<Sup> = Vari::new(-5_i32, &mut heap);
    let x: Vari<Tail> = match x.try_into_subset(&mut heap) {
        Ok(x) => x,
        Err(_) => panic!(),
    };
    assert_eq!(x.index(), 0);
    assert_eq!(*x.get::<i32, _>(), -5);

    let y: Vari<Sup> = Vari::new(9_u8, &mut heap);
    let y: Vari<Last> = match y.try_into_subset(&mut heap) {
        Ok(y) => y,
        Err(_) => panic!(),
    };
    assert_eq!(y.index(), 0);
    assert_eq!(*y.get::<u8, _>(), 9);

    let z: Vari<Sup> = Vari::from_subset(y, &mut heap);
    assert_eq!(z.index(), 2);
    assert_eq!(*z.get::<u8, _>(), 9);
    let z: Vari<Tail> = match Vari::try_from_superset(z, &mut heap) {
        Ok(z) => z,
        Err(_) => panic!(),
    };
    assert_eq!(z.index(), 1);
    assert_eq!(*z.get::<u8, _>(), 9);
}

#[test]
fn match_any() {
    type Abc = CoProd<A, CoProd<B, CoProd<C, CNil>>>;
    let mut heap = Heap::new();
    let bx: Vari<Abc> = Vari::new(C(0), &mut heap);
    match bx.into_inner(&mut heap) {
        CoProd::Item(A(_)) => panic!(),
        CoProd::Rest(CoProd::Item(B(_))) => panic!(),
        CoProd::Rest(CoProd::Rest(CoProd::Item(C(c)))) => assert_eq!(c, 0),
        CoProd::Rest(CoProd::Rest(CoProd::Rest(nil))) => match nil {
            CNil::Nil(never) => match never {},
        },
    }
    assert_eq!(heap.num_allocs(), 1);
    assert_eq!(heap.num_frees(), 1);
}

#[test]
fn tests_no_alloc() {
    let mut heap = Heap::new();
    let cell: Vari<CoProd<(), CoProd<u8, CNil>>> = Vari::new((), &mut heap);
    assert_eq!(cell.as_ptr(), 2);
    cell.destroy(&mut heap);
    assert_eq!(heap.num_allocs(), 1);
    assert_eq!(heap.num_frees(), 1);
}

#[test]
fn no_alloc_for_a_unit_under_the_minimal_policy() {
    let mut heap = Heap::new();
    let cell: Vari<CoProd<(), CoProd<u8, CNil>>, Minimal> =
        Vari::using_strategy((), Minimal, &mut heap);
    cell.destroy(&mut heap);
    assert_eq!(heap.num_allocs(), 0);
    assert_eq!(heap.num_frees(), 0);
}

#[test]
fn only_units_never_allocate_under_the_default_policy() {
    struct Nothing;
    let mut heap = Heap::new();
    let mut cell: Vari<CoProd<(), CoProd<Nothing, CNil>>> = Vari::new((), &mut heap);
    assert_eq!(cell.as_ptr(), 2);
    cell.set(Nothing, &mut heap);
    assert_eq!(cell.index(), 1);
    cell.destroy(&mut heap);
    assert_eq!(heap.num_allocs(), 0);
    assert_eq!(heap.num_frees(), 0);
}

#[test]
fn construct_yields_the_tag_of_the_alternative() {
    let mut heap = Heap::new();
    let a: Vari<Plain> = Vari::new(1u8, &mut heap);
    let b: Vari<Plain> = Vari::new(1i8, &mut heap);
    let c: Vari<Plain> = Vari::new(1u32, &mut heap);
    assert_eq!(a.index(), 0);
    assert_eq!(b.index(), 1);
    assert_eq!(c.index(), 2);
    assert!(a.is::<u8, _>());
    assert!(!a.is::<i8, _>());
    assert!(c.is::<u32, _>());
    assert_eq!(Vari::<Plain>::index_of::<u32, _>(), 2);
    assert_eq!(Vari::<Plain>::tag_bits(), 2);
}

#[test]
fn extract_gives_back_what_was_put_in() {
    let mut heap = Heap::new();
    let cell: Vari<Two> = Vari::new(Box::new(-77i32), &mut heap);
    match cell.into_inner(&mut heap) {
        CoProd::Rest(CoProd::Item(b)) => assert_eq!(*b, -77),
        _ => panic!(),
    }
}

#[test]
fn new_with_runs_the_producer() {
    let mut heap = Heap::new();
    let seed = 20u32;
    let cell: Vari<Plain> = Vari::new_with(move || seed + 1, &mut heap);
    assert_eq!(*cell.get::<u32, _>(), 21);
}

#[test]
fn get_mut_writes_through() {
    let mut heap = Heap::new();
    let mut cell: Vari<Plain> = Vari::new(5u32, &mut heap);
    let at = cell.as_ptr();
    *cell.get_mut::<u32, _>() += 1;
    assert_eq!(*cell.get::<u32, _>(), 6);
    assert!(cell.try_get_mut::<u8, _>().is_none());
    if let Some(v) = cell.try_get_mut::<u32, _>() {
        *v = 40;
    }
    assert_eq!(*cell.get::<u32, _>(), 40);
    assert_eq!(cell.as_ptr(), at);
    assert_eq!(cell.index(), 2);
}

#[test]
fn get_any_points_at_the_held_value() {
    let mut heap = Heap::new();
    let cell: Vari<Plain> = Vari::new(-3i8, &mut heap);
    match cell.get_any() {
        CoProd::Rest(CoProd::Item(v)) => assert_eq!(*v, -3),
        _ => panic!(),
    }
}

#[test]
fn failed_overwrite_leaves_the_value() {
    let mut heap = Heap::new();
    let mut cell: Vari<Plain> = Vari::new(5u8, &mut heap);
    let at = cell.as_ptr();
    let r = cell.try_set_with::<_, u32, &str, _>(|| Err("no"), &mut heap);
    assert_eq!(r, Err("no"));
    assert_eq!(*cell.get::<u8, _>(), 5);
    assert_eq!(cell.as_ptr(), at);
    assert_eq!(heap.num_allocs(), 1);
    assert_eq!(heap.num_frees(), 0);
    let r = cell.try_set_with::<_, u32, &str, _>(|| Ok(9), &mut heap);
    assert_eq!(r, Ok(()));
    assert_eq!(*cell.get::<u32, _>(), 9);
}

#[test]
fn failed_construction_leaves_no_block() {
    let mut heap = Heap::new();
    let r = Vari::<Plain>::try_with_strategy::<_, u32, &str, _>(
        || Err("no"),
        vari::strategy::BiggestVariant,
        &mut heap,
    );
    assert!(matches!(r, Err("no")));
    assert_eq!(heap.num_allocs(), 1);
    assert_eq!(heap.num_frees(), 1);
}

#[derive(Debug, PartialEq)]
struct Marked {
    value: u8,
    assigned: bool,
}

impl Clone for Marked {
    fn clone(&self) -> Self {
        Marked { value: self.value, assigned: false }
    }

    fn clone_from(&mut self, source: &Self) {
        self.value = source.value;
        self.assigned = true;
    }
}

#[test]
fn clone_from_assigns_in_place_where_the_alternatives_agree() {
    type List = CoProd<Marked, CoProd<u32, CNil>>;
    let mut heap = Heap::new();
    let source: Vari<List> = Vari::new(Marked { value: 9, assigned: false }, &mut heap);
    let mut same: Vari<List> = Vari::new(Marked { value: 1, assigned: false }, &mut heap);
    let at = same.as_ptr();
    same.clone_from(&source, &mut heap);
    assert_eq!(*same.get::<Marked, _>(), Marked { value: 9, assigned: true });
    assert_eq!(same.as_ptr(), at);

    let mut other: Vari<List> = Vari::new(5u32, &mut heap);
    other.clone_from(&source, &mut heap);
    assert_eq!(*other.get::<Marked, _>(), Marked { value: 9, assigned: false });
    assert_eq!(other.index(), 0);

    let fresh = source.clone(&mut heap);
    assert_eq!(*fresh.get::<Marked, _>(), Marked { value: 9, assigned: false });
}

#[test]
fn get_any_mut_writes_through() {
    let mut heap = Heap::new();
    let mut cell: Vari<Plain> = Vari::new(-3i8, &mut heap);
    let at = cell.as_ptr();
    match cell.get_any_mut() {
        CoProd::Rest(CoProd::Item(v)) => *v = 12,
        _ => panic!(),
    }
    assert_eq!(*cell.get::<i8, _>(), 12);
    assert_eq!(cell.index(), 1);
    assert_eq!(cell.as_ptr(), at);
}

#[test]
fn conversion_of_a_unit_takes_the_sentinel_of_the_new_list() {
    type Small = CoProd<(), CoProd<u8, CNil>>;
    type Large = CoProd<u8, CoProd<i8, CoProd<bool, CoProd<char, CoProd<(), CNil>>>>>;
    let mut heap = Heap::new();
    let cell: Vari<Small, Minimal> = Vari::using_strategy((), Minimal, &mut heap);
    assert_eq!(cell.as_ptr(), 2);
    let cell: Vari<Large, Minimal> = cell.into_superset(&mut heap);
    assert_eq!(cell.index(), 4);
    assert_eq!(cell.as_ptr(), 8);
    assert_eq!(heap.num_allocs(), 0);
    assert_eq!(heap.num_frees(), 0);
}

#[test]
fn fresh_storage_goes_to_the_next_aligned_address() {
    let mut heap = Heap::new();
    let a: Vari<Plain> = Vari::new(1u8, &mut heap);
    let b: Vari<Plain> = Vari::new(2u32, &mut heap);
    let c: Vari<Plain, Minimal> = Vari::using_strategy(3u8, Minimal, &mut heap);
    let d: Vari<Plain, Minimal> = Vari::using_strategy(4u8, Minimal, &mut heap);
    assert_eq!(a.as_ptr(), 4);
    assert_eq!(b.as_ptr(), 8);
    assert_eq!(c.as_ptr(), 12);
    assert_eq!(d.as_ptr(), 16);
}
