//! Spans of listbox positions.

use crate::index::Index;
use std::ops::{RangeFrom, RangeFull, RangeInclusive, RangeToInclusive};
use vstd::prelude::*;
use vstd::std_specs::convert::FromSpecImpl;

verus! {

/// `std::ops::RangeFrom`, a range with a start and no end: `start..`.
#[verifier::external_type_specification]
#[verifier::reject_recursive_types(Idx)]
pub struct ExRangeFrom<Idx>(RangeFrom<Idx>);

/// `std::ops::RangeToInclusive`, a range with an end and no start: `..=end`.
#[verifier::external_type_specification]
#[verifier::reject_recursive_types(Idx)]
pub struct ExRangeToInclusive<Idx>(RangeToInclusive<Idx>);

/// `std::ops::RangeFull`, the range without bounds: `..`.
#[verifier::external_type_specification]
pub struct ExRangeFull(RangeFull);

/// `RangeInclusive::start` returns the lower bound that the range was made
/// with.
pub assume_specification<Idx>[ RangeInclusive::<Idx>::start ](r: &RangeInclusive<Idx>) -> (ret:
    &Idx)
    ensures
        *ret == r@.start,
;

/// `RangeInclusive::end` returns the upper bound that the range was made
/// with.
pub assume_specification<Idx>[ RangeInclusive::<Idx>::end ](r: &RangeInclusive<Idx>) -> (ret: &Idx)
    ensures
        *ret == r@.end,
;

/// An inclusive span of positions, from `start` to `end`.
///
/// A span written without its start begins at the first element, and one
/// written without its end runs to the end of the list.
#[derive(Clone, Copy, Debug, PartialEq, Eq, Structural)]
pub struct TkRange {
    pub start: Index,
    pub end: Index,
}

impl TkRange {
    /// The span of all elements, which `..` denotes.
    pub open spec fn full() -> TkRange {
        TkRange { start: Index::Number(0), end: Index::End }
    }

    /// The span from the element `start` to the end of the list, which
    /// `start..` denotes.
    pub open spec fn starting(start: u64) -> TkRange {
        TkRange { start: Index::Number(start), end: Index::End }
    }

    /// The span from the first element to the element `end`, which `..=end`
    /// denotes.
    pub open spec fn through(end: u64) -> TkRange {
        TkRange { start: Index::Number(0), end: Index::Number(end) }
    }

    /// The span from the element `start` to the element `end`, which
    /// `start..=end` denotes.
    pub open spec fn between(start: u64, end: u64) -> TkRange {
        TkRange { start: Index::Number(start), end: Index::Number(end) }
    }

    /// The two tokens that stand for this span in a command.
    pub open spec fn tokens(self) -> Seq<Seq<char>> {
        seq![self.start.token(), self.end.token()]
    }
}

impl From<RangeFull> for TkRange {
    /// `..`: every element, from the first to the end of the list.
    fn from(r: RangeFull) -> (ret: TkRange) {
        TkRange { start: Index::default_start(), end: Index::default_end() }
    }
}

impl FromSpecImpl<RangeFull> for TkRange {
    open spec fn obeys_from_spec() -> bool {
        true
    }

    open spec fn from_spec(r: RangeFull) -> TkRange {
        TkRange::full()
    }
}

impl From<RangeFrom<u64>> for TkRange {
    /// `start..`: from the element `start` to the end of the list.
    fn from(r: RangeFrom<u64>) -> (ret: TkRange) {
        TkRange { start: Index::Number(r.start), end: Index::default_end() }
    }
}

impl FromSpecImpl<RangeFrom<u64>> for TkRange {
    open spec fn obeys_from_spec() -> bool {
        true
    }

    open spec fn from_spec(r: RangeFrom<u64>) -> TkRange {
        TkRange::starting(r.start)
    }
}

impl From<RangeToInclusive<u64>> for TkRange {
    /// `..=end`: from the first element to the element `end`.
    fn from(r: RangeToInclusive<u64>) -> (ret: TkRange) {
        TkRange { start: Index::default_start(), end: Index::Number(r.end) }
    }
}

impl FromSpecImpl<RangeToInclusive<u64>> for TkRange {
    open spec fn obeys_from_spec() -> bool {
        true
    }

    open spec fn from_spec(r: RangeToInclusive<u64>) -> TkRange {
        TkRange::through(r.end)
    }
}

impl From<RangeInclusive<u64>> for TkRange {
    /// `start..=end`: from the element `start` to the element `end`.
    fn from(r: RangeInclusive<u64>) -> (ret: TkRange) {
        TkRange { start: Index::Number(*r.start()), end: Index::Number(*r.end()) }
    }
}

impl FromSpecImpl<RangeInclusive<u64>> for TkRange {
    open spec fn obeys_from_spec() -> bool {
        true
    }

    open spec fn from_spec(r: RangeInclusive<u64>) -> TkRange {
        TkRange::between(r@.start, r@.end)
    }
}

/// The shorthands that denote one span give one range, and so the same
/// tokens: `..` and `0..` both run from the first element to the end of the
/// list, and `..=end` and `0..=end` both run from the first element to
/// `end`.
pub proof fn lemma_shorthands_agree(end: u64)
    ensures
        TkRange::full() == TkRange::starting(0),
        TkRange::full().tokens() == TkRange::starting(0).tokens(),
        TkRange::through(end) == TkRange::between(0, end),
        TkRange::through(end).tokens() == TkRange::between(0, end).tokens(),
{
}

} // verus!
