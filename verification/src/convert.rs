//! Taking a value of one list of alternatives over to a related list.
//!
//! Each conversion exists twice: on values, where it moves the held alternative, and on tags,
//! where it is plain arithmetic. The lemmas show that the two agree, so a cell may convert its
//! tag without looking at its value.
use crate::internals::{CNil, CoProd, Contains, Peano, Tuple, TypeList};
use vstd::prelude::*;

verus! {

/// Every alternative of this list is an alternative of `O`; `I` lists their positions in `O`.
pub trait IntoSuperSet<O: TypeList, I>: TypeList {
    /// The same alternative as a value of `O`.
    spec fn spec_into_super_set(self) -> O;

    /// The position in `O` of the alternative at `index`.
    spec fn spec_convert_index(index: nat) -> nat;

    /// The converted value holds an alternative of `O`, at the position that the tag
    /// conversion gives.
    proof fn lemma_into_super_set(self)
        ensures
            self.proper() ==> {
                &&& self.spec_into_super_set().proper()
                &&& self.spec_into_super_set().tag() == Self::spec_convert_index(self.tag())
            },
    ;

    /// A position of this list is taken to a position of `O`.
    proof fn lemma_convert_index(index: nat)
        ensures
            index < Self::spec_count() ==> Self::spec_convert_index(index) < O::spec_count(),
    ;

    /// The same alternative as a value of `O`.
    fn into_super_set(self) -> (r: O)
        requires
            self.proper(),
        ensures
            r == self.spec_into_super_set(),
    ;

    /// The position in `O` of the alternative at `index`.
    fn convert_index(index: usize) -> (r: usize)
        requires
            index < Self::spec_count(),
            O::spec_count() <= usize::MAX,
        ensures
            r == Self::spec_convert_index(index as nat),
    ;
}

impl<Head, O, NHead> IntoSuperSet<O, CoProd<NHead, CNil>> for CoProd<Head, CNil> where
    O: Contains<Head, NHead>,
    NHead: Peano,
 {
    open spec fn spec_into_super_set(self) -> O {
        match self {
            CoProd::Item(value) => O::inject(value),
            CoProd::Rest(_) => arbitrary(),
        }
    }

    open spec fn spec_convert_index(index: nat) -> nat {
        NHead::spec_value()
    }

    proof fn lemma_into_super_set(self) {
        match self {
            CoProd::Item(value) => {
                O::lemma_inject(value);
            },
            CoProd::Rest(_) => {},
        }
    }

    proof fn lemma_convert_index(index: nat) {
        O::lemma_position();
    }

    fn into_super_set(self) -> (r: O) {
        match self {
            CoProd::Item(value) => O::new(value),
            CoProd::Rest(_) => vstd::pervasive::unreached(),
        }
    }

    fn convert_index(index: usize) -> (r: usize) {
        proof {
            O::lemma_position();
        }
        NHead::value()
    }
}

impl<Head, Next, Tail, O, NHead, NTail> IntoSuperSet<O, CoProd<NHead, NTail>> for CoProd<
    Head,
    CoProd<Next, Tail>,
> where O: Contains<Head, NHead>, CoProd<Next, Tail>: IntoSuperSet<O, NTail>, NHead: Peano {
    open spec fn spec_into_super_set(self) -> O {
        match self {
            CoProd::Item(value) => O::inject(value),
            CoProd::Rest(rest) => rest.spec_into_super_set(),
        }
    }

    open spec fn spec_convert_index(index: nat) -> nat {
        if index == 0 {
            NHead::spec_value()
        } else {
            <CoProd<Next, Tail> as IntoSuperSet<O, NTail>>::spec_convert_index((index - 1) as nat)
        }
    }

    proof fn lemma_into_super_set(self) {
        match self {
            CoProd::Item(value) => {
                O::lemma_inject(value);
            },
            CoProd::Rest(rest) => {
                rest.lemma_into_super_set();
            },
        }
    }

    proof fn lemma_convert_index(index: nat) {
        if index == 0 {
            O::lemma_position();
        } else {
            <CoProd<Next, Tail> as IntoSuperSet<O, NTail>>::lemma_convert_index((index - 1) as nat);
        }
    }

    fn into_super_set(self) -> (r: O) {
        match self {
            CoProd::Item(value) => O::new(value),
            CoProd::Rest(rest) => rest.into_super_set(),
        }
    }

    fn convert_index(index: usize) -> (r: usize) {
        if index == 0 {
            proof {
                O::lemma_position();
            }
            NHead::value()
        } else {
            <CoProd<Next, Tail> as IntoSuperSet<O, NTail>>::convert_index(index - 1)
        }
    }
}

/// The position that `index` has once the alternative at `taken` has left the list.
pub open spec fn spec_index_without(index: nat, taken: nat) -> nat {
    if index > taken {
        (index - 1) as nat
    } else {
        index
    }
}

/// Some alternatives of this list make up the list `S`; `I` lists their positions, each in
/// what is left of this list once the ones before it are taken out.
pub trait TryIntoSubSet<S: TypeList, I>: TypeList {
    /// The alternatives of this list that `S` does not keep.
    type Remainder: TypeList;

    /// The same alternative as a value of `S`, or else as a value of what `S` does not keep.
    spec fn spec_try_into_subset(self) -> Result<S, Self::Remainder>;

    /// The position in `S` of the alternative at `index`, counted from `subset_index`, if `S`
    /// keeps that alternative.
    spec fn spec_convert_index(index: nat, subset_index: nat) -> Option<nat>;

    /// The conversion of a value succeeds exactly if the conversion of its tag does, and then
    /// the converted value holds an alternative of `S` at the position that the tag conversion
    /// gives.
    proof fn lemma_try_into_subset(self, subset_index: nat)
        requires
            self.proper(),
        ensures
            self.spec_try_into_subset() is Ok <==> Self::spec_convert_index(
                self.tag(),
                subset_index,
            ) is Some,
            self.spec_try_into_subset() is Ok ==> {
                &&& self.spec_try_into_subset()->Ok_0.proper()
                &&& Self::spec_convert_index(self.tag(), subset_index) == Some(
                    self.spec_try_into_subset()->Ok_0.tag() + subset_index,
                )
            },
            self.spec_try_into_subset() is Err ==> self.spec_try_into_subset()->Err_0.proper(),
    ;

    /// The same alternative as a value of `S`, or else as a value of what `S` does not keep.
    fn try_into_subset(self) -> (r: Result<S, Self::Remainder>)
        requires
            self.proper(),
        ensures
            r == self.spec_try_into_subset(),
    ;

    /// The position in `S` of the alternative at `index`, counted from `subset_index`, if `S`
    /// keeps that alternative.
    fn convert_index(index: usize, subset_index: usize) -> (r: Option<usize>)
        requires
            index < Self::spec_count(),
            Self::spec_count() <= usize::MAX,
            subset_index + S::spec_count() <= usize::MAX,
        ensures
            r is Some <==> Self::spec_convert_index(index as nat, subset_index as nat) is Some,
            r is Some ==> Self::spec_convert_index(index as nat, subset_index as nat) == Some(
                r->Some_0 as nat,
            ),
    ;
}

impl<Choices: TypeList> TryIntoSubSet<CNil, CNil> for Choices {
    type Remainder = Self;

    open spec fn spec_try_into_subset(self) -> Result<CNil, Self::Remainder> {
        Err(self)
    }

    open spec fn spec_convert_index(index: nat, subset_index: nat) -> Option<nat> {
        None
    }

    proof fn lemma_try_into_subset(self, subset_index: nat) {
    }

    fn try_into_subset(self) -> (r: Result<CNil, Self::Remainder>) {
        Err(self)
    }

    fn convert_index(index: usize, subset_index: usize) -> (r: Option<usize>) {
        None
    }
}

impl<Choices, THead, TTail, NHead, NTail> TryIntoSubSet<
    CoProd<THead, TTail>,
    CoProd<NHead, NTail>,
> for Choices where
    Choices: Contains<THead, NHead>,
    Choices::Remainder: TryIntoSubSet<TTail, NTail>,
    TTail: TypeList,
    NHead: Peano,
 {
    type Remainder = <Choices::Remainder as TryIntoSubSet<TTail, NTail>>::Remainder;

    open spec fn spec_try_into_subset(self) -> Result<CoProd<THead, TTail>, Self::Remainder> {
        match self.spec_take() {
            Ok(value) => Ok(CoProd::Item(value)),
            Err(rem) => match rem.spec_try_into_subset() {
                Ok(sub) => Ok(CoProd::Rest(sub)),
                Err(rest) => Err(rest),
            },
        }
    }

    open spec fn spec_convert_index(index: nat, subset_index: nat) -> Option<nat> {
        if index == NHead::spec_value() {
            Some(subset_index)
        } else {
            <Choices::Remainder as TryIntoSubSet<TTail, NTail>>::spec_convert_index(
                spec_index_without(index, NHead::spec_value()),
                subset_index + 1,
            )
        }
    }

    proof fn lemma_try_into_subset(self, subset_index: nat) {
        self.lemma_take();
        match self.spec_take() {
            Ok(value) => {},
            Err(rem) => {
                rem.lemma_try_into_subset(subset_index + 1);
            },
        }
    }

    fn try_into_subset(self) -> (r: Result<CoProd<THead, TTail>, Self::Remainder>) {
        proof {
            self.lemma_take();
        }
        match self.take() {
            Ok(value) => Ok(CoProd::Item(value)),
            Err(rem) => match rem.try_into_subset() {
                Ok(sub) => Ok(CoProd::Rest(sub)),
                Err(rest) => Err(rest),
            },
        }
    }

    fn convert_index(index: usize, subset_index: usize) -> (r: Option<usize>) {
        proof {
            <Choices as Contains<THead, NHead>>::lemma_position();
            <Choices as Contains<THead, NHead>>::lemma_count();
        }
        let head: usize = NHead::value();
        if index == head {
            Some(subset_index)
        } else {
            let rest: usize = if index > head {
                index - 1
            } else {
                index
            };
            <Choices::Remainder as TryIntoSubSet<TTail, NTail>>::convert_index(
                rest,
                subset_index + 1,
            )
        }
    }
}

} // verus!
