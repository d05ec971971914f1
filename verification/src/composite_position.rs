//! Positions that carry every measure at once.

use crate::position::PositionOrder;
use crate::position::TextPosition;
use crate::range::TextRange;
use crate::text::clamp_u32;
use crate::text::last_line;
use crate::text::lemma_utf8_len;
use crate::text::lemma_utf8_size_push;
use crate::text::line_breaks;
use crate::text::utf16_size;
use crate::text::utf8_size;
use crate::utf16_position::Utf16Position;
use crate::utf8_index::Utf8Index;
use crate::utf8_position::Utf8Position;
use core::ops::Add;
use vstd::prelude::*;
use vstd::std_specs::convert::FromSpec;
use vstd::std_specs::iter::IteratorSpec;
use vstd::std_specs::ops::AddSpecImpl;

verus! {

/// A position as a byte offset, a row, and a column both in UTF-8 bytes and
/// in UTF-16 code units.
///
/// As a length it reads: `index` bytes further, which is `row` line breaks
/// further and then `column8` bytes, or `column16` code units, into that
/// line; with no line break, that much further in the same line.
#[derive(Copy, Clone, PartialEq, Eq, PartialOrd, Ord, Hash, Debug, Structural)]
pub struct CompositePosition {
    /// Zero-based offset in bytes.
    pub index: u32,
    /// Zero-based number of the line.
    pub row: u32,
    /// Zero-based offset in the line, in UTF-8 bytes.
    pub column8: u32,
    /// Zero-based offset in the line, in UTF-16 code units.
    pub column16: u32,
}

impl CompositePosition {
    /// The position with the given measures.
    pub fn new(index: u32, row: u32, column8: u32, column16: u32) -> (r: Self)
        ensures
            r.index == index,
            r.row == row,
            r.column8 == column8,
            r.column16 == column16,
    {
        CompositePosition { index, row, column8, column16 }
    }

    /// The byte offset alone.
    pub open spec fn utf8_index_spec(self) -> Utf8Index {
        Utf8Index { index: self.index }
    }

    /// The row and the column in UTF-8 bytes.
    pub open spec fn utf8_position_spec(self) -> Utf8Position {
        Utf8Position { row: self.row, column: self.column8 }
    }

    /// The row and the column in UTF-16 code units.
    pub open spec fn utf16_position_spec(self) -> Utf16Position {
        Utf16Position { row: self.row, column: self.column16 }
    }

    /// The byte offset alone.
    pub fn utf8_index(self) -> (r: Utf8Index)
        ensures
            r == self.utf8_index_spec(),
    {
        Utf8Index { index: self.index }
    }

    /// The row and the column in UTF-8 bytes.
    pub fn utf8_position(self) -> (r: Utf8Position)
        ensures
            r == self.utf8_position_spec(),
    {
        Utf8Position { row: self.row, column: self.column8 }
    }

    /// The row and the column in UTF-16 code units.
    pub fn utf16_position(self) -> (r: Utf16Position)
        ensures
            r == self.utf16_position_spec(),
    {
        Utf16Position { row: self.row, column: self.column16 }
    }

    /// Whether `other` lies at or behind `self` by every measure: by the byte
    /// offset, and by the row and either column.
    pub open spec fn precedes(self, other: Self) -> bool {
        &&& self.index <= other.index
        &&& (self.row < other.row || (self.row == other.row && self.column8 <= other.column8
            && self.column16 <= other.column16))
    }

    /// Whether `other` lies at or behind `self` by every measure.
    pub fn is_preceding(&self, other: &Self) -> (r: bool)
        ensures
            r == self.precedes(*other),
    {
        self.index <= other.index && (self.row < other.row || (self.row == other.row
            && self.column8 <= other.column8 && self.column16 <= other.column16))
    }
}

impl Default for CompositePosition {
    fn default() -> (r: Self)
        ensures
            r == Self::zero_spec(),
    {
        CompositePosition { index: 0, row: 0, column8: 0, column16: 0 }
    }
}

impl AddSpecImpl for CompositePosition {
    open spec fn obeys_add_spec() -> bool {
        true
    }

    open spec fn add_req(self, rhs: Self) -> bool {
        &&& self.index + rhs.index <= u32::MAX
        &&& if rhs.row == 0 {
            self.column8 + rhs.column8 <= u32::MAX && self.column16 + rhs.column16 <= u32::MAX
        } else {
            self.row + rhs.row <= u32::MAX
        }
    }

    open spec fn add_spec(self, rhs: Self) -> Self {
        if rhs.row == 0 {
            CompositePosition {
                index: (self.index + rhs.index) as u32,
                row: self.row,
                column8: (self.column8 + rhs.column8) as u32,
                column16: (self.column16 + rhs.column16) as u32,
            }
        } else {
            CompositePosition {
                index: (self.index + rhs.index) as u32,
                row: (self.row + rhs.row) as u32,
                column8: rhs.column8,
                column16: rhs.column16,
            }
        }
    }
}

impl Add for CompositePosition {
    type Output = CompositePosition;

    fn add(self, rhs: Self) -> (r: Self) {
        let index = self.index + rhs.index;
        if rhs.row == 0 {
            CompositePosition {
                index,
                row: self.row,
                column8: self.column8 + rhs.column8,
                column16: self.column16 + rhs.column16,
            }
        } else {
            CompositePosition {
                index,
                row: self.row + rhs.row,
                column8: rhs.column8,
                column16: rhs.column16,
            }
        }
    }
}

impl PositionOrder<CompositePosition> for CompositePosition {
    /// The order by the byte offset, then the row, then the UTF-8 column,
    /// then the UTF-16 column.
    open spec fn le_spec(self, other: CompositePosition) -> bool {
        ||| self.index < other.index
        ||| self.index == other.index && self.row < other.row
        ||| self.index == other.index && self.row == other.row && self.column8 < other.column8
        ||| self.index == other.index && self.row == other.row && self.column8 == other.column8
            && self.column16 <= other.column16
    }

    open spec fn ge_spec(self, other: CompositePosition) -> bool {
        other.le_spec(self)
    }

    fn at_or_before(&self, other: &CompositePosition) -> (r: bool) {
        if self.index != other.index {
            self.index < other.index
        } else if self.row != other.row {
            self.row < other.row
        } else if self.column8 != other.column8 {
            self.column8 < other.column8
        } else {
            self.column16 <= other.column16
        }
    }

    fn at_or_after(&self, other: &CompositePosition) -> (r: bool) {
        other.at_or_before(self)
    }
}

impl TextPosition for CompositePosition {
    open spec fn zero_spec() -> Self {
        CompositePosition { index: 0, row: 0, column8: 0, column16: 0 }
    }

    open spec fn sub_spec(self, rhs: Self) -> Self {
        if !rhs.precedes(self) {
            Self::zero_spec()
        } else if self.row == rhs.row {
            CompositePosition {
                index: (self.index - rhs.index) as u32,
                row: 0,
                column8: (self.column8 - rhs.column8) as u32,
                column16: (self.column16 - rhs.column16) as u32,
            }
        } else {
            CompositePosition {
                index: (self.index - rhs.index) as u32,
                row: (self.row - rhs.row) as u32,
                column8: self.column8,
                column16: self.column16,
            }
        }
    }

    open spec fn agrees_with(self, other: Self) -> bool {
        self.precedes(other) || other.precedes(self)
    }

    open spec fn of_text(text: Seq<char>) -> Self {
        CompositePosition {
            index: clamp_u32(utf8_size(text)),
            row: clamp_u32(line_breaks(text)),
            column8: clamp_u32(utf8_size(last_line(text))),
            column16: clamp_u32(utf16_size(last_line(text))),
        }
    }

    fn zero() -> (r: Self) {
        CompositePosition { index: 0, row: 0, column8: 0, column16: 0 }
    }

    fn from_str(s: &str) -> (r: Self) {
        let size: usize = s.as_bytes().len();
        let index: u32 = if size > u32::MAX as usize {
            u32::MAX
        } else {
            size as u32
        };
        let mut row: u32 = 0;
        let mut column8: u32 = 0;
        let mut column16: u32 = 0;
        proof {
            lemma_utf8_size_push(Seq::<char>::empty(), 'a');
            assert(s@.take(0) =~= Seq::<char>::empty());
        }
        for c in it: s.chars()
            invariant
                it.seq() == s@,
                row == clamp_u32(line_breaks(s@.take(it.index() as int))),
                column8 == clamp_u32(utf8_size(last_line(s@.take(it.index() as int)))),
                column16 == clamp_u32(utf16_size(last_line(s@.take(it.index() as int)))),
        {
            proof {
                let prefix = s@.take(it.index() as int);
                let next = s@.take(it.index() + 1);
                let line = last_line(prefix);
                assert(next.drop_last() =~= prefix);
                assert(next.last() == c);
                assert(line.push(c).drop_last() =~= line);
                lemma_utf8_size_push(line, c);
                lemma_utf8_len(c);
            }
            let scalar: u32 = c as u32;
            if c == '\n' {
                row = row.saturating_add(1);
                column8 = 0;
                column16 = 0;
            } else {
                let width8: u32 = if scalar < 0x80 {
                    1
                } else if scalar < 0x800 {
                    2
                } else if scalar < 0x10000 {
                    3
                } else {
                    4
                };
                let width16: u32 = if scalar < 0x10000 {
                    1
                } else {
                    2
                };
                column8 = column8.saturating_add(width8);
                column16 = column16.saturating_add(width16);
            }
        }
        proof {
            assert(s@.take(s@.len() as int) =~= s@);
        }
        CompositePosition { index, row, column8, column16 }
    }

    fn saturating_sub(self, rhs: Self) -> (r: Self) {
        if !rhs.is_preceding(&self) {
            CompositePosition { index: 0, row: 0, column8: 0, column16: 0 }
        } else if self.row == rhs.row {
            CompositePosition {
                index: self.index - rhs.index,
                row: 0,
                column8: self.column8 - rhs.column8,
                column16: self.column16 - rhs.column16,
            }
        } else {
            CompositePosition {
                index: self.index - rhs.index,
                row: self.row - rhs.row,
                column8: self.column8,
                column16: self.column16,
            }
        }
    }

    proof fn lemma_order_total(a: Self, b: Self) {
    }

    proof fn lemma_order_transitive(a: Self, b: Self, c: Self) {
    }

    proof fn lemma_order_antisymmetric(a: Self, b: Self) {
    }

    proof fn lemma_add_obeys() {
    }

    proof fn lemma_add_zero(a: Self) {
    }

    proof fn lemma_add_advances(a: Self, len: Self) {
    }

    proof fn lemma_add_then_sub(a: Self, len: Self) {
    }

    proof fn lemma_sub_saturates(a: Self, b: Self) {
    }

    proof fn lemma_sub_then_add(a: Self, b: Self) {
    }

    proof fn lemma_agrees_symmetric(a: Self, b: Self) {
    }
}

impl<'a> vstd::std_specs::convert::FromSpecImpl<&'a str> for CompositePosition {
    open spec fn obeys_from_spec() -> bool {
        true
    }

    open spec fn from_spec(s: &'a str) -> Self {
        Self::of_text(s@)
    }
}

impl<'a> From<&'a str> for CompositePosition {
    fn from(s: &'a str) -> (r: Self) {
        Self::from_str(s)
    }
}

/// A `Utf8Index` is compared with what a composite position holds of that
/// measure.
impl PositionOrder<CompositePosition> for Utf8Index {
    open spec fn le_spec(self, other: CompositePosition) -> bool {
        self.le_spec(other.utf8_index_spec())
    }

    open spec fn ge_spec(self, other: CompositePosition) -> bool {
        self.ge_spec(other.utf8_index_spec())
    }

    fn at_or_before(&self, other: &CompositePosition) -> (r: bool) {
        self.at_or_before(&other.utf8_index())
    }

    fn at_or_after(&self, other: &CompositePosition) -> (r: bool) {
        self.at_or_after(&other.utf8_index())
    }
}

/// A composite position is compared with a `Utf8Index` by what it holds of
/// that measure.
impl PositionOrder<Utf8Index> for CompositePosition {
    open spec fn le_spec(self, other: Utf8Index) -> bool {
        self.utf8_index_spec().le_spec(other)
    }

    open spec fn ge_spec(self, other: Utf8Index) -> bool {
        self.utf8_index_spec().ge_spec(other)
    }

    fn at_or_before(&self, other: &Utf8Index) -> (r: bool) {
        self.utf8_index().at_or_before(other)
    }

    fn at_or_after(&self, other: &Utf8Index) -> (r: bool) {
        self.utf8_index().at_or_after(other)
    }
}

/// A `Utf8Position` is compared with what a composite position holds of that
/// measure.
impl PositionOrder<CompositePosition> for Utf8Position {
    open spec fn le_spec(self, other: CompositePosition) -> bool {
        self.le_spec(other.utf8_position_spec())
    }

    open spec fn ge_spec(self, other: CompositePosition) -> bool {
        self.ge_spec(other.utf8_position_spec())
    }

    fn at_or_before(&self, other: &CompositePosition) -> (r: bool) {
        self.at_or_before(&other.utf8_position())
    }

    fn at_or_after(&self, other: &CompositePosition) -> (r: bool) {
        self.at_or_after(&other.utf8_position())
    }
}

/// A composite position is compared with a `Utf8Position` by what it holds of
/// that measure.
impl PositionOrder<Utf8Position> for CompositePosition {
    open spec fn le_spec(self, other: Utf8Position) -> bool {
        self.utf8_position_spec().le_spec(other)
    }

    open spec fn ge_spec(self, other: Utf8Position) -> bool {
        self.utf8_position_spec().ge_spec(other)
    }

    fn at_or_before(&self, other: &Utf8Position) -> (r: bool) {
        self.utf8_position().at_or_before(other)
    }

    fn at_or_after(&self, other: &Utf8Position) -> (r: bool) {
        self.utf8_position().at_or_after(other)
    }
}

/// A `Utf16Position` is compared with what a composite position holds of that
/// measure.
impl PositionOrder<CompositePosition> for Utf16Position {
    open spec fn le_spec(self, other: CompositePosition) -> bool {
        self.le_spec(other.utf16_position_spec())
    }

    open spec fn ge_spec(self, other: CompositePosition) -> bool {
        self.ge_spec(other.utf16_position_spec())
    }

    fn at_or_before(&self, other: &CompositePosition) -> (r: bool) {
        self.at_or_before(&other.utf16_position())
    }

    fn at_or_after(&self, other: &CompositePosition) -> (r: bool) {
        self.at_or_after(&other.utf16_position())
    }
}

/// A composite position is compared with a `Utf16Position` by what it holds of
/// that measure.
impl PositionOrder<Utf16Position> for CompositePosition {
    open spec fn le_spec(self, other: Utf16Position) -> bool {
        self.utf16_position_spec().le_spec(other)
    }

    open spec fn ge_spec(self, other: Utf16Position) -> bool {
        self.utf16_position_spec().ge_spec(other)
    }

    fn at_or_before(&self, other: &Utf16Position) -> (r: bool) {
        self.utf16_position().at_or_before(other)
    }

    fn at_or_after(&self, other: &Utf16Position) -> (r: bool) {
        self.utf16_position().at_or_after(other)
    }
}

/// Whether a composite range contains a position in rows and UTF-8 columns
/// can be read off its two ends in that measure: the answer is that of the
/// range from the one to the other.
pub proof fn lemma_contains_by_utf8_ends(range: TextRange<CompositePosition>, pos: Utf8Position)
    requires
        range.valid(),
    ensures
        range.contains_inclusive_spec(pos) == TextRange::spanning(
            range.start_spec().utf8_position_spec(),
            range.end_spec().utf8_position_spec(),
        ).contains_inclusive_spec(pos),
        TextRange::spanning(
            range.start_spec().utf8_position_spec(),
            range.end_spec().utf8_position_spec(),
        ).valid(),
{
}

/// Whether a composite range contains a position in rows and UTF-16 columns
/// can be read off its two ends in that measure.
pub proof fn lemma_contains_by_utf16_ends(range: TextRange<CompositePosition>, pos: Utf16Position)
    requires
        range.valid(),
    ensures
        range.contains_inclusive_spec(pos) == TextRange::spanning(
            range.start_spec().utf16_position_spec(),
            range.end_spec().utf16_position_spec(),
        ).contains_inclusive_spec(pos),
{
}

/// Whether a composite range contains a byte offset can be read off the byte
/// offsets of its two ends.
pub proof fn lemma_contains_by_offsets(range: TextRange<CompositePosition>, pos: Utf8Index)
    requires
        range.valid(),
    ensures
        range.contains_inclusive_spec(pos) == TextRange::spanning(
            range.start_spec().utf8_index_spec(),
            range.end_spec().utf8_index_spec(),
        ).contains_inclusive_spec(pos),
{
}

} // verus!
