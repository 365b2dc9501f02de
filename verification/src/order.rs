//! The order of cells: first by the position of the held alternative, then by the held
//! values as values of that alternative.
use crate::dispatch::{ApplyWith, FuncWith};
use crate::internals::TypeList;
use crate::strategy::AllocStrategy;
use crate::Vari;
use core::cmp::Ordering;
use vstd::prelude::*;
use vstd::std_specs::cmp::{OrdSpec, PartialOrdSpec};

verus! {

/// How one value stands to another.
#[derive(Clone, Copy, PartialEq, Eq, Structural, Debug)]
pub enum Order {
    Less,
    Equal,
    Greater,
}

/// The standing that `ordering` names.
pub open spec fn order_of(ordering: Ordering) -> Order {
    match ordering {
        Ordering::Less => Order::Less,
        Ordering::Equal => Order::Equal,
        Ordering::Greater => Order::Greater,
    }
}

/// The standing that `ordering` names, if it names one.
pub open spec fn order_of_option(ordering: Option<Ordering>) -> Option<Order> {
    match ordering {
        Some(o) => Some(order_of(o)),
        None => None,
    }
}

/// How the position `index` stands to the position `other`.
pub open spec fn order_of_tags(index: nat, other: nat) -> Order {
    if index < other {
        Order::Less
    } else if index == other {
        Order::Equal
    } else {
        Order::Greater
    }
}

impl Order {
    /// The standing as the standard library names it.
    pub fn ordering(self) -> (r: Ordering)
        ensures
            order_of(r) == self,
    {
        match self {
            Order::Less => Ordering::Less,
            Order::Equal => Ordering::Equal,
            Order::Greater => Ordering::Greater,
        }
    }

    /// The standing that the standard library names `ordering`.
    pub fn from_ordering(ordering: Ordering) -> (r: Order)
        ensures
            r == order_of(ordering),
    {
        match ordering {
            Ordering::Less => Order::Less,
            Ordering::Equal => Order::Equal,
            Ordering::Greater => Order::Greater,
        }
    }
}

/// The operation that compares two values of one alternative in the partial order of that
/// alternative.
pub struct PartialOrdImp;

impl<T: PartialOrd> FuncWith<T> for PartialOrdImp {
    type Output = Option<Order>;

    open spec fn called_with(self, value: T, other: T, out: Option<Order>) -> bool {
        T::obeys_partial_cmp_spec() ==> out == order_of_option(value.partial_cmp_spec(&other))
    }

    fn call_with(self, value: &T, other: &T) -> (out: Option<Order>) {
        match value.partial_cmp(other) {
            Some(o) => Some(Order::from_ordering(o)),
            None => None,
        }
    }
}

/// The operation that compares two values of one alternative in the total order of that
/// alternative.
pub struct OrdImp;

impl<T: Ord> FuncWith<T> for OrdImp {
    type Output = Order;

    open spec fn called_with(self, value: T, other: T, out: Order) -> bool {
        T::obeys_cmp_spec() ==> out == order_of(value.cmp_spec(&other))
    }

    fn call_with(self, value: &T, other: &T) -> (out: Order) {
        Order::from_ordering(value.cmp(other))
    }
}

impl<L: TypeList, S: AllocStrategy<L>> Vari<L, S> {
    /// How this cell stands to `other`: by the positions of the held alternatives where they
    /// differ, and else as the held values stand in the partial order of their alternative.
    pub fn partial_cmp<S2>(&self, other: &Vari<L, S2>) -> (r: Option<Ordering>) where
        L: ApplyWith<PartialOrdImp, Output = Option<Order>>,
        S2: AllocStrategy<L>,

        requires
            self.inv(),
            other.inv(),
        ensures
            self@.tag() != other@.tag() ==> order_of_option(r) == Some(
                order_of_tags(self@.tag(), other@.tag()),
            ),
            self@.tag() == other@.tag() ==> self@.applied_with(
                other@,
                PartialOrdImp,
                order_of_option(r),
            ),
    {
        let index = self.index();
        let oindex = other.index();
        if index < oindex {
            Some(Ordering::Less)
        } else if index > oindex {
            Some(Ordering::Greater)
        } else {
            match self.apply_with(other, PartialOrdImp) {
                Some(o) => Some(o.ordering()),
                None => None,
            }
        }
    }

    /// How this cell stands to `other`: by the positions of the held alternatives where they
    /// differ, and else as the held values stand in the total order of their alternative.
    pub fn cmp(&self, other: &Self) -> (r: Ordering) where L: ApplyWith<OrdImp, Output = Order>
        requires
            self.inv(),
            other.inv(),
        ensures
            self@.tag() != other@.tag() ==> order_of(r) == order_of_tags(
                self@.tag(),
                other@.tag(),
            ),
            self@.tag() == other@.tag() ==> self@.applied_with(other@, OrdImp, order_of(r)),
    {
        let index = self.index();
        let oindex = other.index();
        if index < oindex {
            Ordering::Less
        } else if index > oindex {
            Ordering::Greater
        } else {
            self.apply_with(other, OrdImp).ordering()
        }
    }
}

} // verus!
