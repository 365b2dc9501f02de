//! The order of pinned cells, which is the order of the cells.
use crate::dispatch::ApplyWith;
use crate::internals::{Tuple, TypeList};
use crate::order::{order_of, order_of_option, order_of_tags, OrdImp, Order, PartialOrdImp};
use crate::pin::PinVari;
use crate::strategy::AllocStrategy;
use crate::Vari;
use core::cmp::Ordering;
use vstd::prelude::*;

verus! {

impl<L: TypeList, S: AllocStrategy<L>> PinVari<L, S> {
    /// How this cell stands to `other`: by the positions of the held alternatives where they
    /// differ, and else as the held values stand in the partial order of their alternative.
    pub fn partial_cmp(&self, other: &Self) -> (r: Option<Ordering>) where
        L: ApplyWith<PartialOrdImp, Output = Option<Order>>,

        requires
            self.inv(),
            other.inv(),
        ensures
            self@.tag() != other@.tag() ==> order_of_option(r) == Some(
                order_of_tags(self@.tag(), other@.tag()),
            ),
            self@.tag() == other@.tag() ==> self@.applied_with(
                other@,
                PartialOrdImp,
                order_of_option(r),
            ),
    {
        self.0.partial_cmp(&other.0)
    }

    /// How this cell stands to the cell `other`, which is not pinned.
    pub fn partial_cmp_unpinned(&self, other: &Vari<L, S>) -> (r: Option<Ordering>) where
        L: ApplyWith<PartialOrdImp, Output = Option<Order>>,

        requires
            self.inv(),
            other.inv(),
        ensures
            self@.tag() != other@.tag() ==> order_of_option(r) == Some(
                order_of_tags(self@.tag(), other@.tag()),
            ),
            self@.tag() == other@.tag() ==> self@.applied_with(
                other@,
                PartialOrdImp,
                order_of_option(r),
            ),
    {
        self.0.partial_cmp(other)
    }

    /// How this cell stands to `other`: by the positions of the held alternatives where they
    /// differ, and else as the held values stand in the total order of their alternative.
    pub fn cmp(&self, other: &Self) -> (r: Ordering) where L: ApplyWith<OrdImp, Output = Order>
        requires
            self.inv(),
            other.inv(),
        ensures
            self@.tag() != other@.tag() ==> order_of(r) == order_of_tags(
                self@.tag(),
                other@.tag(),
            ),
            self@.tag() == other@.tag() ==> self@.applied_with(other@, OrdImp, order_of(r)),
    {
        self.0.cmp(&other.0)
    }
}

} // verus!
