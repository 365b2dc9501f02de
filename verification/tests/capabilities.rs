use core::cmp::Ordering;
use std::collections::hash_map::DefaultHasher;
use std::hash::{Hash, Hasher};
use vari::convert::{IntoSuperSet, TryIntoSubSet};
use vari::dispatch::{Func, FuncMut};
use vari::hash::HasherImp;
use vari::iter::{DoubleEndedIteratorImp, IteratorImp};
use vari::heap::Heap;
use vari::internals::{CNil, CloneImp, CoProd, GetAny, Tuple};
use vari::order::Order;
use vari::strategy::Minimal;
use vari::Vari;

type Plain = CoProd<u8, CoProd<i8, CoProd<u32, CNil>>>;

struct Widen;

impl Func<u8> for Widen {
    type Output = i64;

    fn called(self, _: u8, _: i64) -> bool {
        unreachable!()
    }

    fn call(self, value: &u8) -> i64 {
        *value as i64
    }
}

impl Func<i8> for Widen {
    type Output = i64;

    fn called(self, _: i8, _: i64) -> bool {
        unreachable!()
    }

    fn call(self, value: &i8) -> i64 {
        *value as i64
    }
}

impl Func<u32> for Widen {
    type Output = i64;

    fn called(self, _: u32, _: i64) -> bool {
        unreachable!()
    }

    fn call(self, value: &u32) -> i64 {
        *value as i64
    }
}

struct Bump;

impl FuncMut<u8> for Bump {
    type Output = bool;

    fn called_mut(self, _: u8, _: u8, _: bool) -> bool {
        unreachable!()
    }

    fn call_mut(self, value: &mut u8) -> bool {
        *value = value.wrapping_add(1);
        *value == 0
    }
}

impl FuncMut<i8> for Bump {
    type Output = bool;

    fn called_mut(self, _: i8, _: i8, _: bool) -> bool {
        unreachable!()
    }

    fn call_mut(self, value: &mut i8) -> bool {
        *value = value.wrapping_add(1);
        *value == 0
    }
}

impl FuncMut<u32> for Bump {
    type Output = bool;

    fn called_mut(self, _: u32, _: u32, _: bool) -> bool {
        unreachable!()
    }

    fn call_mut(self, value: &mut u32) -> bool {
        *value = value.wrapping_add(1);
        *value == 0
    }
}

#[test]
fn apply_visits_exactly_the_held_alternative() {
    let mut heap = Heap::new();
    let a: Vari<Plain> = Vari::new(200u8, &mut heap);
    let b: Vari<Plain> = Vari::new(-100i8, &mut heap);
    let c: Vari<Plain> = Vari::new(70000u32, &mut heap);
    assert_eq!(a.apply(Widen), 200);
    assert_eq!(b.apply(Widen), -100);
    assert_eq!(c.apply(Widen), 70000);
}

#[test]
fn apply_mut_changes_the_held_value_in_place() {
    let mut heap = Heap::new();
    let mut b: Vari<Plain> = Vari::new(-1i8, &mut heap);
    let at = b.as_ptr();
    assert!(b.apply_mut(Bump));
    assert_eq!(*b.get::<i8, _>(), 0);
    assert!(!b.apply_mut(Bump));
    assert_eq!(*b.get::<i8, _>(), 1);
    assert_eq!(b.index(), 1);
    assert_eq!(b.as_ptr(), at);
}

#[test]
fn cells_are_ordered_by_tag_and_then_by_value() {
    let mut heap = Heap::new();
    let a: Vari<Plain> = Vari::new(200u8, &mut heap);
    let a2: Vari<Plain> = Vari::new(201u8, &mut heap);
    let b: Vari<Plain> = Vari::new(-100i8, &mut heap);
    let c: Vari<Plain, Minimal> = Vari::with_strategy(|| 1u32, Minimal, &mut heap);
    assert_eq!(a.cmp(&a), Ordering::Equal);
    assert_eq!(a.cmp(&a2), Ordering::Less);
    assert_eq!(a2.cmp(&a), Ordering::Greater);
    assert_eq!(a.cmp(&b), Ordering::Less);
    assert_eq!(b.cmp(&a2), Ordering::Greater);
    assert_eq!(a.partial_cmp(&a2), Some(Ordering::Less));
    assert_eq!(b.partial_cmp(&a), Some(Ordering::Greater));
    assert_eq!(a.partial_cmp(&c), Some(Ordering::Less));
    assert_eq!(b.partial_cmp(&b), Some(Ordering::Equal));
}

#[test]
fn order_names() {
    assert_eq!(Order::Less.ordering(), Ordering::Less);
    assert_eq!(Order::Equal.ordering(), Ordering::Equal);
    assert_eq!(Order::Greater.ordering(), Ordering::Greater);
    assert_eq!(Order::from_ordering(Ordering::Less), Order::Less);
    assert_eq!(Order::from_ordering(Ordering::Equal), Order::Equal);
    assert_eq!(Order::from_ordering(Ordering::Greater), Order::Greater);
}

fn digest_of<T: Hash>(value: &T) -> u64 {
    let mut hasher = DefaultHasher::new();
    Hash::hash(value, &mut hasher);
    hasher.finish()
}

#[test]
fn hash_feeds_the_held_value() {
    let mut heap = Heap::new();
    let c: Vari<Plain> = Vari::new(70000u32, &mut heap);
    let mut hasher = DefaultHasher::new();
    let empty = hasher.finish();
    c.hash(&mut hasher);
    assert_eq!(hasher.finish(), digest_of(&70000u32));
    assert_ne!(hasher.finish(), empty);
    let b: Vari<Plain> = Vari::new(-7i8, &mut heap);
    let mut hasher = DefaultHasher::new();
    b.hash(&mut hasher);
    assert_eq!(hasher.finish(), digest_of(&-7i8));
}

#[test]
fn hash_gives_back_the_hasher_it_has_fed() {
    let mut heap = Heap::new();
    let c: Vari<Plain> = Vari::new(70000u32, &mut heap);
    let fed = c.hash(DefaultHasher::new());
    assert_eq!(fed.finish(), digest_of(&70000u32));
    assert_ne!(fed.finish(), DefaultHasher::new().finish());
    let a: Vari<Plain> = Vari::new(3u8, &mut heap);
    let twice = a.hash(c.hash(DefaultHasher::new()));
    let mut plain = DefaultHasher::new();
    Hash::hash(&70000u32, &mut plain);
    Hash::hash(&3u8, &mut plain);
    assert_eq!(twice.finish(), plain.finish());
    assert_ne!(twice.finish(), fed.finish());
}

#[test]
fn a_cell_of_hashers_is_fed_like_the_hasher() {
    type Hashers = CoProd<DefaultHasher, CNil>;
    let mut heap = Heap::new();
    let mut cell: Vari<Hashers> = Vari::new(DefaultHasher::new(), &mut heap);
    let mut plain = DefaultHasher::new();
    assert_eq!(cell.finish(), plain.finish());

    cell.feed(HasherImp::Bytes(&[1, 2, 3]));
    plain.write(&[1, 2, 3]);
    assert_eq!(cell.finish(), plain.finish());
    cell.feed(HasherImp::U8(1));
    plain.write_u8(1);
    assert_eq!(cell.finish(), plain.finish());
    cell.feed(HasherImp::U16(2));
    plain.write_u16(2);
    assert_eq!(cell.finish(), plain.finish());
    cell.feed(HasherImp::U32(3));
    plain.write_u32(3);
    assert_eq!(cell.finish(), plain.finish());
    cell.feed(HasherImp::U64(4));
    plain.write_u64(4);
    assert_eq!(cell.finish(), plain.finish());
    cell.feed(HasherImp::U128(5));
    plain.write_u128(5);
    assert_eq!(cell.finish(), plain.finish());
    cell.feed(HasherImp::Usize(6));
    plain.write_usize(6);
    assert_eq!(cell.finish(), plain.finish());
    cell.feed(HasherImp::I8(-1));
    plain.write_i8(-1);
    assert_eq!(cell.finish(), plain.finish());
    cell.feed(HasherImp::I16(-2));
    plain.write_i16(-2);
    assert_eq!(cell.finish(), plain.finish());
    cell.feed(HasherImp::I32(-3));
    plain.write_i32(-3);
    assert_eq!(cell.finish(), plain.finish());
    cell.feed(HasherImp::I64(-4));
    plain.write_i64(-4);
    assert_eq!(cell.finish(), plain.finish());
    cell.feed(HasherImp::I128(-5));
    plain.write_i128(-5);
    assert_eq!(cell.finish(), plain.finish());
    cell.feed(HasherImp::Isize(-6));
    plain.write_isize(-6);
    assert_eq!(cell.finish(), plain.finish());
    assert_ne!(cell.finish(), DefaultHasher::new().finish());
}

#[test]
fn values_convert_as_tags_do() {
    type Mid = CoProd<i32, CoProd<u32, CNil>>;
    type Sup = CoProd<u32, CoProd<i32, CoProd<u8, CNil>>>;
    let v: Mid = CoProd::Rest(CoProd::Item(5u32));
    let w: Sup = v.into_super_set();
    assert!(matches!(w, CoProd::Item(5u32)));
    assert_eq!(<Mid as IntoSuperSet<Sup, _>>::convert_index(0), 1);
    assert_eq!(<Mid as IntoSuperSet<Sup, _>>::convert_index(1), 0);

    assert_eq!(<Sup as TryIntoSubSet<Mid, _>>::convert_index(0, 0), Some(1));
    assert_eq!(<Sup as TryIntoSubSet<Mid, _>>::convert_index(1, 0), Some(0));
    assert_eq!(<Sup as TryIntoSubSet<Mid, _>>::convert_index(2, 0), None);
    let back: Result<Mid, _> = w.try_into_subset();
    assert!(matches!(back, Ok(CoProd::Rest(CoProd::Item(5u32)))));
    let lost: Result<Mid, _> = (CoProd::Rest(CoProd::Rest(CoProd::Item(1u8))) as Sup).try_into_subset();
    assert!(matches!(lost, Err(CoProd::Item(1u8))));
}

#[test]
fn sums_clone_by_alternative() {
    let v: Plain = CoProd::Rest(CoProd::Item(-4i8));
    let c = CloneImp::clone(&v);
    assert!(matches!(c, CoProd::Rest(CoProd::Item(-4i8))));
    let mut t: Plain = CoProd::Item(1u8);
    CloneImp::clone_from(&mut t, &v);
    assert!(matches!(t, CoProd::Rest(CoProd::Item(-4i8))));
    let mut u: Plain = CoProd::Rest(CoProd::Item(3i8));
    CloneImp::clone_from(&mut u, &v);
    assert!(matches!(u, CoProd::Rest(CoProd::Item(-4i8))));
    let w: Plain = CoProd::Item(9u8);
    CloneImp::clone_from(&mut u, &w);
    assert!(matches!(u, CoProd::Item(9u8)));
}

#[test]
fn sums_give_references() {
    let v: Plain = CoProd::Rest(CoProd::Rest(CoProd::Item(11u32)));
    match GetAny::get_any(&v) {
        CoProd::Rest(CoProd::Rest(CoProd::Item(r))) => assert_eq!(*r, 11),
        _ => panic!(),
    }
    assert_eq!(<Plain as Tuple>::count(), 3);
}

#[test]
fn a_hasher_held_by_value_is_fed_like_the_hasher() {
    let plain = {
        let mut h = DefaultHasher::new();
        h.write(&[1, 2, 3]);
        h.write_u8(1);
        h.write_u16(2);
        h.write_u32(3);
        h.write_u64(4);
        h.write_u128(5);
        h.write_usize(6);
        h.write_i8(-1);
        h.write_i16(-2);
        h.write_i32(-3);
        h.write_i64(-4);
        h.write_i128(-5);
        h.write_isize(-6);
        h
    };
    let fed = DefaultHasher::new();
    let fed = HasherImp::Bytes(&[1, 2, 3]).feed(fed);
    let fed = HasherImp::U8(1).feed(fed);
    let fed = HasherImp::U16(2).feed(fed);
    let fed = HasherImp::U32(3).feed(fed);
    let fed = HasherImp::U64(4).feed(fed);
    let fed = HasherImp::U128(5).feed(fed);
    let fed = HasherImp::Usize(6).feed(fed);
    let fed = HasherImp::I8(-1).feed(fed);
    let fed = HasherImp::I16(-2).feed(fed);
    let fed = HasherImp::I32(-3).feed(fed);
    let fed = HasherImp::I64(-4).feed(fed);
    let fed = HasherImp::I128(-5).feed(fed);
    let fed = HasherImp::Isize(-6).feed(fed);
    assert_eq!(fed.finish(), plain.finish());

    let each: [(HasherImp, u64); 3] = [
        (HasherImp::U8(7), {
            let mut h = DefaultHasher::new();
            h.write_u8(7);
            h.finish()
        }),
        (HasherImp::U16(7), {
            let mut h = DefaultHasher::new();
            h.write_u16(7);
            h.finish()
        }),
        (HasherImp::I64(7), {
            let mut h = DefaultHasher::new();
            h.write_i64(7);
            h.finish()
        }),
    ];
    for (what, digest) in each {
        let h = what.feed(DefaultHasher::new());
        assert_eq!(h.finish(), digest);
        assert_ne!(h.finish(), DefaultHasher::new().finish());
    }
}

type Iters = CoProd<std::ops::Range<u32>, CoProd<std::vec::IntoIter<u32>, CNil>>;

#[test]
fn a_cell_of_iterators_is_advanced_like_the_iterator() {
    let mut heap = Heap::new();
    let mut range: Vari<Iters> = Vari::new(0u32..10, &mut heap);
    let at = range.as_ptr();
    assert_eq!(range.size_hint(), (10, Some(10)));
    assert_eq!(range.next(), Some(0));
    assert_eq!(range.next(), Some(1));
    assert_eq!(range.nth(2), Some(4));
    assert_eq!(range.next_back(), Some(9));
    assert_eq!(range.nth_back(1), Some(7));
    assert_eq!(range.size_hint(), (2, Some(2)));
    assert_eq!(range.next(), Some(5));
    assert_eq!(range.next(), Some(6));
    assert_eq!(range.next(), None);
    assert_eq!(range.next_back(), None);
    assert_eq!(range.nth(0), None);
    assert_eq!(range.index(), 0);
    assert_eq!(range.as_ptr(), at);

    let mut list: Vari<Iters> = Vari::new(vec![7u32, 8, 9].into_iter(), &mut heap);
    assert_eq!(list.size_hint(), (3, Some(3)));
    assert_eq!(list.nth(1), Some(8));
    assert_eq!(list.next_back(), Some(9));
    assert_eq!(list.next(), None);
    assert_eq!(list.index(), 1);
}

#[test]
fn an_iterator_held_by_value_is_advanced_like_the_iterator() {
    let (iter, item) = IteratorImp(None).advance(0u32..10);
    assert_eq!(item, Some(0));
    assert_eq!(iter, 1..10);
    let (iter, item) = IteratorImp(Some(3)).advance(iter);
    assert_eq!(item, Some(4));
    assert_eq!(iter, 5..10);
    let (iter, item) = DoubleEndedIteratorImp(None).advance(iter);
    assert_eq!(item, Some(9));
    assert_eq!(iter, 5..9);
    let (iter, item) = DoubleEndedIteratorImp(Some(2)).advance(iter);
    assert_eq!(item, Some(6));
    assert_eq!(iter, 5..6);
    let (iter, item) = IteratorImp(Some(5)).advance(iter);
    assert_eq!(item, None);
    assert_eq!(iter, 6..6);
}
