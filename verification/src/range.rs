//! Ranges of text between two positions.
//!
//! A range is held as its start and its length rather than as its two ends:
//! a length cannot be negative, so no range has its end before its start.

use crate::algebra::lemma_overlaps_by_ends;
use crate::position::max_position;
use crate::position::max_spec;
use crate::position::min_position;
use crate::position::min_spec;
use crate::position::PositionOrder;
use crate::position::TextPosition;
use core::ops::Range;
use vstd::prelude::*;
use vstd::std_specs::convert::FromSpec;
use vstd::std_specs::ops::AddSpec;

verus! {

/// Range of text between two positions.
#[derive(Copy, Ord, PartialOrd, Eq, PartialEq, Hash, Debug)]
pub struct TextRange<P> {
    /// Start position of the range.
    pub index: P,
    /// Size of the range.
    pub len: P,
}

impl<P: Copy> Clone for TextRange<P> {
    fn clone(&self) -> (r: Self)
        ensures
            r == *self,
    {
        *self
    }
}

impl<P: TextPosition> TextRange<P> {
    /// Whether the end of the range is representable.
    pub open spec fn valid(self) -> bool {
        self.index.add_req(self.len)
    }

    /// The position at which the range starts.
    pub open spec fn start_spec(self) -> P {
        self.index
    }

    /// The position at which the range ends.
    pub open spec fn end_spec(self) -> P {
        self.index.add_spec(self.len)
    }

    /// The range of no length at `index`.
    pub open spec fn empty_spec(index: P) -> Self {
        TextRange { index, len: P::zero_spec() }
    }

    /// The range that starts at `start` and has the saturating difference
    /// from `start` to `end` as its length.
    pub open spec fn spanning(start: P, end: P) -> Self {
        TextRange { index: start, len: end.sub_spec(start) }
    }

    /// The half-open interval from the start of the range to its end.
    pub open spec fn range_spec(self) -> Range<P> {
        Range { start: self.index, end: self.end_spec() }
    }

    /// Whether `pos` lies between the two ends of the range, ends included.
    pub open spec fn contains_inclusive_spec<TOtherPos: PositionOrder<P>>(
        self,
        pos: TOtherPos,
    ) -> bool {
        pos.ge_spec(self.index) && pos.le_spec(self.end_spec())
    }

    /// Whether `other` lies within the range, ends included.
    pub open spec fn covers_spec(self, other: Self) -> bool {
        self.start_spec().le_spec(other.start_spec()) && other.end_spec().le_spec(self.end_spec())
    }

    /// Whether the range has no length.
    pub open spec fn is_empty_spec(self) -> bool {
        self.len == P::zero_spec()
    }

    /// Whether the two ranges share a position: neither ends before the
    /// other starts.
    pub open spec fn overlaps(self, other: Self) -> bool {
        self.start_spec().le_spec(other.end_spec()) && other.start_spec().le_spec(self.end_spec())
    }

    /// The range from the earlier start to the later end.
    pub open spec fn join_spec(self, other: Self) -> Self {
        Self::spanning(
            min_spec(self.start_spec(), other.start_spec()),
            max_spec(self.end_spec(), other.end_spec()),
        )
    }

    /// The range from the later start to the earlier end where the two
    /// overlap, and else the empty range at the start of `self`.
    pub open spec fn meet_spec(self, other: Self) -> Self {
        if self.overlaps(other) {
            Self::spanning(
                max_spec(self.start_spec(), other.start_spec()),
                min_spec(self.end_spec(), other.end_spec()),
            )
        } else {
            Self::empty_spec(self.start_spec())
        }
    }

    /// A range built from two positions is valid, whatever their order.
    pub proof fn lemma_spanning_valid(start: P, end: P)
        ensures
            Self::spanning(start, end).valid(),
    {
        P::lemma_order_total(start, end);
        if start.le_spec(end) {
            P::lemma_sub_then_add(start, end);
        } else {
            P::lemma_sub_saturates(end, start);
            P::lemma_add_zero(start);
        }
    }

    /// Make a range that is covered by two ranges.
    ///
    /// Where the two are disjoint, the result is the empty range at the start
    /// of `self`.
    pub fn meet(self, other: Self) -> (r: Self)
        requires
            self.valid(),
            other.valid(),
        ensures
            r == self.meet_spec(other),
            r.valid(),
    {
        let end = min_position(self.end(), other.end());
        let start = max_position(self.start(), other.start());
        proof {
            lemma_overlaps_by_ends(self, other);
        }
        if start.at_or_before(&end) {
            Self::from(start..end)
        } else {
            Self::empty(self.start())
        }
    }

    /// Make a range covering two ranges, and what lies between them.
    pub fn join(self, other: Self) -> (r: Self)
        requires
            self.valid(),
            other.valid(),
        ensures
            r == self.join_spec(other),
            r.valid(),
    {
        let start = min_position(self.start(), other.start());
        let end = max_position(self.end(), other.end());
        Self::from(start..end)
    }

    /// The canonical empty range, at the start of the text.
    pub fn zero() -> (r: Self)
        ensures
            r == Self::empty_spec(P::zero_spec()),
            r.valid(),
    {
        Self::empty(P::zero())
    }

    /// Create an empty range pointing to a position.
    pub fn empty(index: P) -> (r: Self)
        ensures
            r == Self::empty_spec(index),
            r.valid(),
    {
        proof {
            P::lemma_add_zero(index);
        }
        Self { index, len: P::zero() }
    }

    /// Create a range from the start of the text to `len`.
    pub fn up_to(len: P) -> (r: Self)
        ensures
            r == (TextRange { index: P::zero_spec(), len }),
            r.valid(),
            r.end_spec() == len,
    {
        proof {
            P::lemma_add_zero(len);
        }
        Self { index: P::zero(), len }
    }

    /// Create a range from its start and its length.
    pub fn at(index: P, len: P) -> (r: Self)
        ensures
            r == (TextRange { index, len }),
    {
        Self { index, len }
    }

    /// The position at which the range starts.
    pub fn start(self) -> (r: P)
        ensures
            r == self.start_spec(),
    {
        self.index
    }

    /// The position at which the range ends.
    pub fn end(self) -> (r: P)
        requires
            self.valid(),
        ensures
            r == self.end_spec(),
    {
        proof {
            P::lemma_add_obeys();
        }
        self.index + self.len
    }

    /// Empty range pointing to the end position.
    pub fn to_start(self) -> (r: Self)
        requires
            self.valid(),
        ensures
            r == Self::empty_spec(self.end_spec()),
            r.valid(),
    {
        Self::empty(self.end())
    }

    /// Empty range pointing to the end position.
    pub fn to_end(self) -> (r: Self)
        requires
            self.valid(),
        ensures
            r == Self::empty_spec(self.end_spec()),
            r.valid(),
    {
        Self::empty(self.end())
    }

    /// Whether the range contains a position, ends included.
    ///
    /// The position may be of another representation than the range.
    pub fn contains_inclusive<TOtherPos>(self, pos: TOtherPos) -> (r: bool) where
        TOtherPos: PositionOrder<P>,

        requires
            self.valid(),
        ensures
            r == self.contains_inclusive_spec(pos),
    {
        pos.at_or_after(&self.index) && pos.at_or_before(&self.end())
    }

    /// Whether the range contains another range entirely.
    pub fn covers(self, other: Self) -> (r: bool)
        requires
            self.valid(),
            other.valid(),
        ensures
            r == self.covers_spec(other),
    {
        self.start().at_or_before(&other.start()) && other.end().at_or_before(&self.end())
    }

    /// Whether the range is empty.
    pub fn is_empty(self) -> (r: bool)
        ensures
            r == self.is_empty_spec(),
    {
        let zero = P::zero();
        proof {
            crate::position::lemma_zero_is_least(self.len);
            if self.len.le_spec(zero) {
                P::lemma_order_antisymmetric(self.len, zero);
            } else {
                crate::position::lemma_order_reflexive(zero);
            }
        }
        self.len.at_or_before(&zero)
    }

    /// The half-open interval from the start of the range to its end.
    pub fn to_range(self) -> (r: Range<P>)
        requires
            self.valid(),
        ensures
            r == self.range_spec(),
    {
        Range { start: self.index, end: self.end() }
    }
}

impl<P: TextPosition> vstd::std_specs::convert::FromSpecImpl<Range<P>> for TextRange<P> {
    open spec fn obeys_from_spec() -> bool {
        true
    }

    open spec fn from_spec(range: Range<P>) -> Self {
        Self::spanning(range.start, range.end)
    }
}

impl<P: TextPosition> From<Range<P>> for TextRange<P> {
    /// The range from `range.start` to `range.end`; the empty range at
    /// `range.start` where the end lies before the start.
    fn from(range: Range<P>) -> (r: Self)
        ensures
            r.valid(),
    {
        let Range { start, end } = range;
        proof {
            Self::lemma_spanning_valid(start, end);
        }
        Self { index: start, len: end.saturating_sub(start) }
    }
}

impl<P: TextPosition + Default> Default for TextRange<P> {
    /// The empty range at the default position.
    fn default() -> (r: Self)
        ensures
            r.is_empty_spec(),
            r.valid(),
            call_ensures(P::default, (), r.index),
    {
        let index = P::default();
        Self::empty(index)
    }
}

} // verus!
