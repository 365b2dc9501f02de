//! Hashing through a cell: a cell whose alternatives can be hashed feeds the held value to a
//! hasher, and a cell whose alternatives are hashers is fed like the hasher it holds.
//!
//! What a hasher makes of what it is fed is the hasher's own matter, and nothing is said of
//! it here. What is said is that the hasher's own answer is the one handed on: the hasher
//! that comes back from hashing is the one that `Hash::hash` has fed, and the digest is the
//! one that `Hasher::finish` gave. A hasher that is fed, by value or inside a cell, is then
//! the one that the named method of `Hasher` made of it.
use crate::dispatch::{Apply, ApplyMut, Func, FuncMut};
use crate::internals::TypeList;
use crate::strategy::AllocStrategy;
use crate::Vari;
use core::hash::{Hash, Hasher};
use vstd::prelude::*;

verus! {

/// Feeds `value` to `state`, as `Hash::hash` does, and hands the state back. Nothing is
/// claimed of the state after.
#[verifier::external_body]
fn hash_into<T: Hash, H: Hasher>(value: &T, state: H) -> H {
    let mut state = state;
    value.hash(&mut state);
    state
}

/// `after` is the hasher that `Hash::hash` made of the hasher `before` by feeding it `value`.
pub closed spec fn hashed<T: Hash, H: Hasher>(value: T, before: H, after: H) -> bool {
    call_ensures(hash_into::<T, H>, (&value, before), after)
}

/// `digest` is the digest that `Hasher::finish` gave for `hasher`.
pub closed spec fn finished<T: Hasher>(hasher: T, digest: u64) -> bool {
    call_ensures(hasher_finish::<T>, (&hasher,), digest)
}

/// The digest of what `hasher` was fed so far, as `Hasher::finish` gives it. Nothing is
/// claimed of the digest.
#[verifier::external_body]
fn hasher_finish<T: Hasher>(hasher: &T) -> u64 {
    hasher.finish()
}

/// Feeds `bytes` to a hasher held by value, as `Hasher::write` does, and hands the hasher
/// back. Nothing is claimed of the hasher after.
#[verifier::external_body]
fn hasher_write_owned<T: Hasher>(hasher: T, bytes: &[u8]) -> T {
    let mut hasher = hasher;
    hasher.write(bytes);
    hasher
}

/// `after` is the hasher that `Hasher::write` made of the hasher `before` by feeding it
/// `bytes`.
pub closed spec fn fed_bytes<T: Hasher>(before: T, bytes: &[u8], after: T) -> bool {
    call_ensures(hasher_write_owned::<T>, (before, bytes), after)
}

/// Feeds `bytes` to `hasher`, as `Hasher::write` does. The hasher after is what
/// `Hasher::write` makes of the hasher before when that is held by value; nothing more is
/// claimed of it.
#[verifier::external_body]
fn hasher_write<T: Hasher>(hasher: &mut T, bytes: &[u8])
    ensures
        fed_bytes(*old(hasher), bytes, *final(hasher)),
{
    hasher.write(bytes)
}

/// Feeds `i` to a hasher held by value, as `Hasher::write_u8` does, and hands the hasher
/// back. Nothing is claimed of the hasher after.
#[verifier::external_body]
fn hasher_write_u8_owned<T: Hasher>(hasher: T, i: u8) -> T {
    let mut hasher = hasher;
    hasher.write_u8(i);
    hasher
}

/// `after` is the hasher that `Hasher::write_u8` made of the hasher `before` by feeding it
/// `i`.
pub closed spec fn fed_u8<T: Hasher>(before: T, i: u8, after: T) -> bool {
    call_ensures(hasher_write_u8_owned::<T>, (before, i), after)
}

/// Feeds `i` to `hasher`, as `Hasher::write_u8` does. The hasher after is what
/// `Hasher::write_u8` makes of the hasher before when that is held by value; nothing more is
/// claimed of it.
#[verifier::external_body]
fn hasher_write_u8<T: Hasher>(hasher: &mut T, i: u8)
    ensures
        fed_u8(*old(hasher), i, *final(hasher)),
{
    hasher.write_u8(i)
}

/// Feeds `i` to a hasher held by value, as `Hasher::write_u16` does, and hands the hasher
/// back. Nothing is claimed of the hasher after.
#[verifier::external_body]
fn hasher_write_u16_owned<T: Hasher>(hasher: T, i: u16) -> T {
    let mut hasher = hasher;
    hasher.write_u16(i);
    hasher
}

/// `after` is the hasher that `Hasher::write_u16` made of the hasher `before` by feeding it
/// `i`.
pub closed spec fn fed_u16<T: Hasher>(before: T, i: u16, after: T) -> bool {
    call_ensures(hasher_write_u16_owned::<T>, (before, i), after)
}

/// Feeds `i` to `hasher`, as `Hasher::write_u16` does. The hasher after is what
/// `Hasher::write_u16` makes of the hasher before when that is held by value; nothing more is
/// claimed of it.
#[verifier::external_body]
fn hasher_write_u16<T: Hasher>(hasher: &mut T, i: u16)
    ensures
        fed_u16(*old(hasher), i, *final(hasher)),
{
    hasher.write_u16(i)
}

/// Feeds `i` to a hasher held by value, as `Hasher::write_u32` does, and hands the hasher
/// back. Nothing is claimed of the hasher after.
#[verifier::external_body]
fn hasher_write_u32_owned<T: Hasher>(hasher: T, i: u32) -> T {
    let mut hasher = hasher;
    hasher.write_u32(i);
    hasher
}

/// `after` is the hasher that `Hasher::write_u32` made of the hasher `before` by feeding it
/// `i`.
pub closed spec fn fed_u32<T: Hasher>(before: T, i: u32, after: T) -> bool {
    call_ensures(hasher_write_u32_owned::<T>, (before, i), after)
}

/// Feeds `i` to `hasher`, as `Hasher::write_u32` does. The hasher after is what
/// `Hasher::write_u32` makes of the hasher before when that is held by value; nothing more is
/// claimed of it.
#[verifier::external_body]
fn hasher_write_u32<T: Hasher>(hasher: &mut T, i: u32)
    ensures
        fed_u32(*old(hasher), i, *final(hasher)),
{
    hasher.write_u32(i)
}

/// Feeds `i` to a hasher held by value, as `Hasher::write_u64` does, and hands the hasher
/// back. Nothing is claimed of the hasher after.
#[verifier::external_body]
fn hasher_write_u64_owned<T: Hasher>(hasher: T, i: u64) -> T {
    let mut hasher = hasher;
    hasher.write_u64(i);
    hasher
}

/// `after` is the hasher that `Hasher::write_u64` made of the hasher `before` by feeding it
/// `i`.
pub closed spec fn fed_u64<T: Hasher>(before: T, i: u64, after: T) -> bool {
    call_ensures(hasher_write_u64_owned::<T>, (before, i), after)
}

/// Feeds `i` to `hasher`, as `Hasher::write_u64` does. The hasher after is what
/// `Hasher::write_u64` makes of the hasher before when that is held by value; nothing more is
/// claimed of it.
#[verifier::external_body]
fn hasher_write_u64<T: Hasher>(hasher: &mut T, i: u64)
    ensures
        fed_u64(*old(hasher), i, *final(hasher)),
{
    hasher.write_u64(i)
}

/// Feeds `i` to a hasher held by value, as `Hasher::write_u128` does, and hands the hasher
/// back. Nothing is claimed of the hasher after.
#[verifier::external_body]
fn hasher_write_u128_owned<T: Hasher>(hasher: T, i: u128) -> T {
    let mut hasher = hasher;
    hasher.write_u128(i);
    hasher
}

/// `after` is the hasher that `Hasher::write_u128` made of the hasher `before` by feeding it
/// `i`.
pub closed spec fn fed_u128<T: Hasher>(before: T, i: u128, after: T) -> bool {
    call_ensures(hasher_write_u128_owned::<T>, (before, i), after)
}

/// Feeds `i` to `hasher`, as `Hasher::write_u128` does. The hasher after is what
/// `Hasher::write_u128` makes of the hasher before when that is held by value; nothing more is
/// claimed of it.
#[verifier::external_body]
fn hasher_write_u128<T: Hasher>(hasher: &mut T, i: u128)
    ensures
        fed_u128(*old(hasher), i, *final(hasher)),
{
    hasher.write_u128(i)
}

/// Feeds `i` to a hasher held by value, as `Hasher::write_usize` does, and hands the hasher
/// back. Nothing is claimed of the hasher after.
#[verifier::external_body]
fn hasher_write_usize_owned<T: Hasher>(hasher: T, i: usize) -> T {
    let mut hasher = hasher;
    hasher.write_usize(i);
    hasher
}

/// `after` is the hasher that `Hasher::write_usize` made of the hasher `before` by feeding it
/// `i`.
pub closed spec fn fed_usize<T: Hasher>(before: T, i: usize, after: T) -> bool {
    call_ensures(hasher_write_usize_owned::<T>, (before, i), after)
}

/// Feeds `i` to `hasher`, as `Hasher::write_usize` does. The hasher after is what
/// `Hasher::write_usize` makes of the hasher before when that is held by value; nothing more is
/// claimed of it.
#[verifier::external_body]
fn hasher_write_usize<T: Hasher>(hasher: &mut T, i: usize)
    ensures
        fed_usize(*old(hasher), i, *final(hasher)),
{
    hasher.write_usize(i)
}

/// Feeds `i` to a hasher held by value, as `Hasher::write_i8` does, and hands the hasher
/// back. Nothing is claimed of the hasher after.
#[verifier::external_body]
fn hasher_write_i8_owned<T: Hasher>(hasher: T, i: i8) -> T {
    let mut hasher = hasher;
    hasher.write_i8(i);
    hasher
}

/// `after` is the hasher that `Hasher::write_i8` made of the hasher `before` by feeding it
/// `i`.
pub closed spec fn fed_i8<T: Hasher>(before: T, i: i8, after: T) -> bool {
    call_ensures(hasher_write_i8_owned::<T>, (before, i), after)
}

/// Feeds `i` to `hasher`, as `Hasher::write_i8` does. The hasher after is what
/// `Hasher::write_i8` makes of the hasher before when that is held by value; nothing more is
/// claimed of it.
#[verifier::external_body]
fn hasher_write_i8<T: Hasher>(hasher: &mut T, i: i8)
    ensures
        fed_i8(*old(hasher), i, *final(hasher)),
{
    hasher.write_i8(i)
}

/// Feeds `i` to a hasher held by value, as `Hasher::write_i16` does, and hands the hasher
/// back. Nothing is claimed of the hasher after.
#[verifier::external_body]
fn hasher_write_i16_owned<T: Hasher>(hasher: T, i: i16) -> T {
    let mut hasher = hasher;
    hasher.write_i16(i);
    hasher
}

/// `after` is the hasher that `Hasher::write_i16` made of the hasher `before` by feeding it
/// `i`.
pub closed spec fn fed_i16<T: Hasher>(before: T, i: i16, after: T) -> bool {
    call_ensures(hasher_write_i16_owned::<T>, (before, i), after)
}

/// Feeds `i` to `hasher`, as `Hasher::write_i16` does. The hasher after is what
/// `Hasher::write_i16` makes of the hasher before when that is held by value; nothing more is
/// claimed of it.
#[verifier::external_body]
fn hasher_write_i16<T: Hasher>(hasher: &mut T, i: i16)
    ensures
        fed_i16(*old(hasher), i, *final(hasher)),
{
    hasher.write_i16(i)
}

/// Feeds `i` to a hasher held by value, as `Hasher::write_i32` does, and hands the hasher
/// back. Nothing is claimed of the hasher after.
#[verifier::external_body]
fn hasher_write_i32_owned<T: Hasher>(hasher: T, i: i32) -> T {
    let mut hasher = hasher;
    hasher.write_i32(i);
    hasher
}

/// `after` is the hasher that `Hasher::write_i32` made of the hasher `before` by feeding it
/// `i`.
pub closed spec fn fed_i32<T: Hasher>(before: T, i: i32, after: T) -> bool {
    call_ensures(hasher_write_i32_owned::<T>, (before, i), after)
}

/// Feeds `i` to `hasher`, as `Hasher::write_i32` does. The hasher after is what
/// `Hasher::write_i32` makes of the hasher before when that is held by value; nothing more is
/// claimed of it.
#[verifier::external_body]
fn hasher_write_i32<T: Hasher>(hasher: &mut T, i: i32)
    ensures
        fed_i32(*old(hasher), i, *final(hasher)),
{
    hasher.write_i32(i)
}

/// Feeds `i` to a hasher held by value, as `Hasher::write_i64` does, and hands the hasher
/// back. Nothing is claimed of the hasher after.
#[verifier::external_body]
fn hasher_write_i64_owned<T: Hasher>(hasher: T, i: i64) -> T {
    let mut hasher = hasher;
    hasher.write_i64(i);
    hasher
}

/// `after` is the hasher that `Hasher::write_i64` made of the hasher `before` by feeding it
/// `i`.
pub closed spec fn fed_i64<T: Hasher>(before: T, i: i64, after: T) -> bool {
    call_ensures(hasher_write_i64_owned::<T>, (before, i), after)
}

/// Feeds `i` to `hasher`, as `Hasher::write_i64` does. The hasher after is what
/// `Hasher::write_i64` makes of the hasher before when that is held by value; nothing more is
/// claimed of it.
#[verifier::external_body]
fn hasher_write_i64<T: Hasher>(hasher: &mut T, i: i64)
    ensures
        fed_i64(*old(hasher), i, *final(hasher)),
{
    hasher.write_i64(i)
}

/// Feeds `i` to a hasher held by value, as `Hasher::write_i128` does, and hands the hasher
/// back. Nothing is claimed of the hasher after.
#[verifier::external_body]
fn hasher_write_i128_owned<T: Hasher>(hasher: T, i: i128) -> T {
    let mut hasher = hasher;
    hasher.write_i128(i);
    hasher
}

/// `after` is the hasher that `Hasher::write_i128` made of the hasher `before` by feeding it
/// `i`.
pub closed spec fn fed_i128<T: Hasher>(before: T, i: i128, after: T) -> bool {
    call_ensures(hasher_write_i128_owned::<T>, (before, i), after)
}

/// Feeds `i` to `hasher`, as `Hasher::write_i128` does. The hasher after is what
/// `Hasher::write_i128` makes of the hasher before when that is held by value; nothing more is
/// claimed of it.
#[verifier::external_body]
fn hasher_write_i128<T: Hasher>(hasher: &mut T, i: i128)
    ensures
        fed_i128(*old(hasher), i, *final(hasher)),
{
    hasher.write_i128(i)
}

/// Feeds `i` to a hasher held by value, as `Hasher::write_isize` does, and hands the hasher
/// back. Nothing is claimed of the hasher after.
#[verifier::external_body]
fn hasher_write_isize_owned<T: Hasher>(hasher: T, i: isize) -> T {
    let mut hasher = hasher;
    hasher.write_isize(i);
    hasher
}

/// `after` is the hasher that `Hasher::write_isize` made of the hasher `before` by feeding it
/// `i`.
pub closed spec fn fed_isize<T: Hasher>(before: T, i: isize, after: T) -> bool {
    call_ensures(hasher_write_isize_owned::<T>, (before, i), after)
}

/// Feeds `i` to `hasher`, as `Hasher::write_isize` does. The hasher after is what
/// `Hasher::write_isize` makes of the hasher before when that is held by value; nothing more is
/// claimed of it.
#[verifier::external_body]
fn hasher_write_isize<T: Hasher>(hasher: &mut T, i: isize)
    ensures
        fed_isize(*old(hasher), i, *final(hasher)),
{
    hasher.write_isize(i)
}

/// The operation that feeds a value to the hasher it carries, and gives the hasher back. A
/// hasher that is to be kept is carried by exclusive reference, which is a hasher too.
pub struct HashImp<H: Hasher>(pub H);

impl<T: Hash, H: Hasher> Func<T> for HashImp<H> {
    type Output = H;

    open spec fn called(self, value: T, out: H) -> bool {
        hashed(value, self.0, out)
    }

    fn call(self, value: &T) -> (out: H) {
        hash_into(value, self.0)
    }
}

/// The operation that feeds what it carries to a hasher.
pub enum HasherImp<'a> {
    Bytes(&'a [u8]),
    U8(u8),
    U16(u16),
    U32(u32),
    U64(u64),
    U128(u128),
    Usize(usize),
    I8(i8),
    I16(i16),
    I32(i32),
    I64(i64),
    I128(i128),
    Isize(isize),
}

impl<'a> HasherImp<'a> {
    /// `after` is the hasher that the method of `Hasher` which the operation names made of the
    /// hasher `before`, by feeding it what the operation carries.
    pub open spec fn fed<T: Hasher>(self, before: T, after: T) -> bool {
        match self {
            HasherImp::Bytes(bytes) => fed_bytes(before, bytes, after),
            HasherImp::U8(i) => fed_u8(before, i, after),
            HasherImp::U16(i) => fed_u16(before, i, after),
            HasherImp::U32(i) => fed_u32(before, i, after),
            HasherImp::U64(i) => fed_u64(before, i, after),
            HasherImp::U128(i) => fed_u128(before, i, after),
            HasherImp::Usize(i) => fed_usize(before, i, after),
            HasherImp::I8(i) => fed_i8(before, i, after),
            HasherImp::I16(i) => fed_i16(before, i, after),
            HasherImp::I32(i) => fed_i32(before, i, after),
            HasherImp::I64(i) => fed_i64(before, i, after),
            HasherImp::I128(i) => fed_i128(before, i, after),
            HasherImp::Isize(i) => fed_isize(before, i, after),
        }
    }

    /// Feeds what the operation carries to a hasher held by value, through the method of
    /// `Hasher` that the operation names, and gives the hasher back.
    pub fn feed<T: Hasher>(self, hasher: T) -> (r: T)
        ensures
            self.fed(hasher, r),
    {
        match self {
            HasherImp::Bytes(bytes) => hasher_write_owned(hasher, bytes),
            HasherImp::U8(i) => hasher_write_u8_owned(hasher, i),
            HasherImp::U16(i) => hasher_write_u16_owned(hasher, i),
            HasherImp::U32(i) => hasher_write_u32_owned(hasher, i),
            HasherImp::U64(i) => hasher_write_u64_owned(hasher, i),
            HasherImp::U128(i) => hasher_write_u128_owned(hasher, i),
            HasherImp::Usize(i) => hasher_write_usize_owned(hasher, i),
            HasherImp::I8(i) => hasher_write_i8_owned(hasher, i),
            HasherImp::I16(i) => hasher_write_i16_owned(hasher, i),
            HasherImp::I32(i) => hasher_write_i32_owned(hasher, i),
            HasherImp::I64(i) => hasher_write_i64_owned(hasher, i),
            HasherImp::I128(i) => hasher_write_i128_owned(hasher, i),
            HasherImp::Isize(i) => hasher_write_isize_owned(hasher, i),
        }
    }
}

impl<'a, T: Hasher> FuncMut<T> for HasherImp<'a> {
    type Output = ();

    open spec fn called_mut(self, before: T, after: T, out: ()) -> bool {
        self.fed(before, after)
    }

    fn call_mut(self, value: &mut T) -> (out: ()) {
        match self {
            HasherImp::Bytes(bytes) => hasher_write(value, bytes),
            HasherImp::U8(i) => hasher_write_u8(value, i),
            HasherImp::U16(i) => hasher_write_u16(value, i),
            HasherImp::U32(i) => hasher_write_u32(value, i),
            HasherImp::U64(i) => hasher_write_u64(value, i),
            HasherImp::U128(i) => hasher_write_u128(value, i),
            HasherImp::Usize(i) => hasher_write_usize(value, i),
            HasherImp::I8(i) => hasher_write_i8(value, i),
            HasherImp::I16(i) => hasher_write_i16(value, i),
            HasherImp::I32(i) => hasher_write_i32(value, i),
            HasherImp::I64(i) => hasher_write_i64(value, i),
            HasherImp::I128(i) => hasher_write_i128(value, i),
            HasherImp::Isize(i) => hasher_write_isize(value, i),
        }
    }
}

/// The operation that asks a hasher for its digest.
pub struct HasherFinishImp;

impl<T: Hasher> Func<T> for HasherFinishImp {
    type Output = u64;

    open spec fn called(self, value: T, out: u64) -> bool {
        finished(value, out)
    }

    fn call(self, value: &T) -> (out: u64) {
        hasher_finish(value)
    }
}

impl<L: TypeList, S: AllocStrategy<L>> Vari<L, S> {
    /// Feeds the held value to `hasher`, and gives the hasher back: it is the hasher that
    /// `Hash::hash` of the held alternative has made of `hasher`.
    pub fn hash<H: Hasher>(&self, hasher: H) -> (r: H) where L: Apply<HashImp<H>, Output = H>
        requires
            self.inv(),
        ensures
            <L as Apply<HashImp<H>>>::applied(self@, HashImp(hasher), r),
    {
        self.apply(HashImp(hasher))
    }

    /// The digest of the hasher that the cell holds: the one that `Hasher::finish` of the held
    /// alternative gives.
    pub fn finish(&self) -> (r: u64) where L: Apply<HasherFinishImp, Output = u64>
        requires
            self.inv(),
        ensures
            <L as Apply<HasherFinishImp>>::applied(self@, HasherFinishImp, r),
    {
        self.apply(HasherFinishImp)
    }

    /// Feeds `what` to the hasher that the cell holds: the held hasher is then the one that
    /// the method which `what` names has made of it. The cell goes on to hold a hasher of the
    /// same alternative in the same storage.
    pub fn feed<'a>(&mut self, what: HasherImp<'a>) where L: ApplyMut<HasherImp<'a>>
        requires
            old(self).inv(),
        ensures
            exists|out: <L as ApplyMut<HasherImp<'a>>>::Output|
                <L as ApplyMut<HasherImp<'a>>>::applied_mut(old(self)@, final(self)@, what, out),
            final(self).inv(),
            final(self)@.tag() == old(self)@.tag(),
            final(self).addr() == old(self).addr(),
            final(self).spec_strategy() == old(self).spec_strategy(),
    {
        let _ = self.apply_mut::<HasherImp<'a>>(what);
    }
}

} // verus!
