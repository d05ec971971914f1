//! Positions as a row and a column in UTF-16 code units.

use crate::composite_position::CompositePosition;
use crate::position::PositionOrder;
use crate::position::TextPosition;
use crate::text::clamp_u32;
use crate::text::last_line;
use crate::text::line_breaks;
use crate::text::utf16_size;
use core::ops::Add;
use vstd::prelude::*;
use vstd::std_specs::convert::FromSpec;
use vstd::std_specs::ops::AddSpecImpl;

verus! {

/// A position as a row and a column, the column counted in UTF-16 code
/// units.
///
/// As a length it reads: `row` line breaks further, and then `column` code
/// units into that line; with no line break, `column` code units further in
/// the same line.
#[derive(Copy, Clone, PartialEq, Eq, PartialOrd, Ord, Hash, Debug, Structural)]
pub struct Utf16Position {
    /// Zero-based number of the line.
    pub row: u32,
    /// Zero-based offset in the line, in code units.
    pub column: u32,
}

impl Utf16Position {
    /// The position in line `row`, `column` code units into it.
    pub fn new(row: u32, column: u32) -> (r: Self)
        ensures
            r.row == row,
            r.column == column,
    {
        Utf16Position { row, column }
    }
}

impl Default for Utf16Position {
    fn default() -> (r: Self)
        ensures
            r == Self::zero_spec(),
    {
        Utf16Position { row: 0, column: 0 }
    }
}

impl AddSpecImpl for Utf16Position {
    open spec fn obeys_add_spec() -> bool {
        true
    }

    open spec fn add_req(self, rhs: Self) -> bool {
        if rhs.row == 0 {
            self.column + rhs.column <= u32::MAX
        } else {
            self.row + rhs.row <= u32::MAX
        }
    }

    open spec fn add_spec(self, rhs: Self) -> Self {
        if rhs.row == 0 {
            Utf16Position { row: self.row, column: (self.column + rhs.column) as u32 }
        } else {
            Utf16Position { row: (self.row + rhs.row) as u32, column: rhs.column }
        }
    }
}

impl Add for Utf16Position {
    type Output = Utf16Position;

    fn add(self, rhs: Self) -> (r: Self) {
        if rhs.row == 0 {
            Utf16Position { row: self.row, column: self.column + rhs.column }
        } else {
            Utf16Position { row: self.row + rhs.row, column: rhs.column }
        }
    }
}

impl PositionOrder<Utf16Position> for Utf16Position {
    open spec fn le_spec(self, other: Utf16Position) -> bool {
        self.row < other.row || (self.row == other.row && self.column <= other.column)
    }

    open spec fn ge_spec(self, other: Utf16Position) -> bool {
        other.row < self.row || (other.row == self.row && other.column <= self.column)
    }

    fn at_or_before(&self, other: &Utf16Position) -> (r: bool) {
        self.row < other.row || (self.row == other.row && self.column <= other.column)
    }

    fn at_or_after(&self, other: &Utf16Position) -> (r: bool) {
        other.row < self.row || (other.row == self.row && other.column <= self.column)
    }
}

impl TextPosition for Utf16Position {
    open spec fn zero_spec() -> Self {
        Utf16Position { row: 0, column: 0 }
    }

    open spec fn sub_spec(self, rhs: Self) -> Self {
        if self.row < rhs.row {
            Self::zero_spec()
        } else if self.row == rhs.row {
            Utf16Position {
                row: 0,
                column: if self.column >= rhs.column {
                    (self.column - rhs.column) as u32
                } else {
                    0
                },
            }
        } else {
            Utf16Position { row: (self.row - rhs.row) as u32, column: self.column }
        }
    }

    open spec fn agrees_with(self, other: Self) -> bool {
        true
    }

    open spec fn of_text(text: Seq<char>) -> Self {
        Utf16Position {
            row: clamp_u32(line_breaks(text)),
            column: clamp_u32(utf16_size(last_line(text))),
        }
    }

    fn zero() -> (r: Self) {
        Utf16Position { row: 0, column: 0 }
    }

    fn from_str(s: &str) -> (r: Self) {
        CompositePosition::from_str(s).utf16_position()
    }

    fn saturating_sub(self, rhs: Self) -> (r: Self) {
        if self.row < rhs.row {
            Utf16Position { row: 0, column: 0 }
        } else if self.row == rhs.row {
            Utf16Position { row: 0, column: self.column.saturating_sub(rhs.column) }
        } else {
            Utf16Position { row: self.row - rhs.row, column: self.column }
        }
    }

    proof fn lemma_order_total(a: Self, b: Self) {
    }

    proof fn lemma_order_transitive(a: Self, b: Self, c: Self) {
    }

    proof fn lemma_order_antisymmetric(a: Self, b: Self) {
    }

    proof fn lemma_add_obeys() {
    }

    proof fn lemma_add_zero(a: Self) {
    }

    proof fn lemma_add_advances(a: Self, len: Self) {
    }

    proof fn lemma_add_then_sub(a: Self, len: Self) {
    }

    proof fn lemma_sub_saturates(a: Self, b: Self) {
    }

    proof fn lemma_sub_then_add(a: Self, b: Self) {
    }

    proof fn lemma_agrees_symmetric(a: Self, b: Self) {
    }
}

impl<'a> vstd::std_specs::convert::FromSpecImpl<&'a str> for Utf16Position {
    open spec fn obeys_from_spec() -> bool {
        true
    }

    open spec fn from_spec(s: &'a str) -> Self {
        Self::of_text(s@)
    }
}

impl<'a> From<&'a str> for Utf16Position {
    fn from(s: &'a str) -> (r: Self) {
        Self::from_str(s)
    }
}

} // verus!
