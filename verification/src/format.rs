//! Rendering of ranges for diagnostics.
//!
//! A range of byte offsets is written as `start..end`. A range of rows and
//! columns is written as `R1.C1-R2.C2`, the form that compilers use for a
//! location, with rows and columns counted from one.

use crate::composite_position::CompositePosition;
use crate::range::TextRange;
use crate::utf16_position::Utf16Position;
use crate::utf8_index::Utf8Index;
use crate::utf8_position::Utf8Position;
use vstd::prelude::*;
use vstd::string::StringExecFns;

verus! {

/// The character for the digit `d`.
pub open spec fn digit_char(d: nat) -> char
    recommends
        d < 10,
{
    if d == 0 {
        '0'
    } else if d == 1 {
        '1'
    } else if d == 2 {
        '2'
    } else if d == 3 {
        '3'
    } else if d == 4 {
        '4'
    } else if d == 5 {
        '5'
    } else if d == 6 {
        '6'
    } else if d == 7 {
        '7'
    } else if d == 8 {
        '8'
    } else {
        '9'
    }
}

/// The digits of `n` in base ten, without leading zeros.
pub open spec fn decimal(n: nat) -> Seq<char>
    decreases n,
{
    if n < 10 {
        seq![digit_char(n)]
    } else {
        decimal(n / 10).push(digit_char(n % 10))
    }
}

/// A location in rows and columns that are counted from zero, written with
/// rows and columns counted from one.
pub open spec fn gnu_location(
    start_row: u32,
    start_column: u32,
    end_row: u32,
    end_column: u32,
) -> Seq<char> {
    decimal((start_row + 1) as nat) + seq!['.'] + decimal((start_column + 1) as nat) + seq!['-']
        + decimal((end_row + 1) as nat) + seq!['.'] + decimal((end_column + 1) as nat)
}

/// A range of byte offsets, written as its two ends.
pub open spec fn offset_interval(start: u32, end: u32) -> Seq<char> {
    decimal(start as nat) + seq!['.', '.'] + decimal(end as nat)
}

/// The digit `d` as a string.
fn digit_str(d: u64) -> (r: &'static str)
    requires
        d < 10,
    ensures
        r@ == seq![digit_char(d as nat)],
{
    proof {
        reveal_strlit("0");
        reveal_strlit("1");
        reveal_strlit("2");
        reveal_strlit("3");
        reveal_strlit("4");
        reveal_strlit("5");
        reveal_strlit("6");
        reveal_strlit("7");
        reveal_strlit("8");
        reveal_strlit("9");
    }
    let r = if d == 0 {
        "0"
    } else if d == 1 {
        "1"
    } else if d == 2 {
        "2"
    } else if d == 3 {
        "3"
    } else if d == 4 {
        "4"
    } else if d == 5 {
        "5"
    } else if d == 6 {
        "6"
    } else if d == 7 {
        "7"
    } else if d == 8 {
        "8"
    } else {
        "9"
    };
    assert(r@ =~= seq![digit_char(d as nat)]);
    r
}

/// Appends the digits of `n` to `out`.
fn push_decimal(out: &mut String, n: u64)
    ensures
        final(out)@ == old(out)@ + decimal(n as nat),
    decreases n,
{
    if n >= 10 {
        push_decimal(out, n / 10);
    }
    out.append(digit_str(n % 10));
    assert(final(out)@ =~= old(out)@ + decimal(n as nat));
}

/// Appends the dot between a row and a column.
fn push_dot(out: &mut String)
    ensures
        final(out)@ == old(out)@ + seq!['.'],
{
    proof {
        reveal_strlit(".");
    }
    out.append(".");
    assert(final(out)@ =~= old(out)@ + seq!['.']);
}

/// Appends the hyphen between the two ends.
fn push_hyphen(out: &mut String)
    ensures
        final(out)@ == old(out)@ + seq!['-'],
{
    proof {
        reveal_strlit("-");
    }
    out.append("-");
    assert(final(out)@ =~= old(out)@ + seq!['-']);
}

/// Writes a location as `R1.C1-R2.C2`, from rows and columns that are
/// counted from zero.
///
/// See <https://www.gnu.org/prep/standards/html_node/Errors.html>.
pub fn fmt_gnu(start_row: u32, start_column: u32, end_row: u32, end_column: u32) -> (r: String)
    ensures
        r@ == gnu_location(start_row, start_column, end_row, end_column),
{
    let mut out = String::new();
    push_decimal(&mut out, start_row as u64 + 1);
    push_dot(&mut out);
    push_decimal(&mut out, start_column as u64 + 1);
    push_hyphen(&mut out);
    push_decimal(&mut out, end_row as u64 + 1);
    push_dot(&mut out);
    push_decimal(&mut out, end_column as u64 + 1);
    assert(out@ =~= gnu_location(start_row, start_column, end_row, end_column));
    out
}

impl TextRange<Utf8Index> {
    /// The range as `start..end`.
    pub fn to_string(self) -> (r: String)
        requires
            self.valid(),
        ensures
            r@ == offset_interval(self.start_spec().index, self.end_spec().index),
    {
        let mut out = String::new();
        push_decimal(&mut out, self.start().index as u64);
        push_dot(&mut out);
        push_dot(&mut out);
        push_decimal(&mut out, self.end().index as u64);
        assert(out@ =~= offset_interval(self.start_spec().index, self.end_spec().index));
        out
    }
}

impl TextRange<Utf8Position> {
    /// The range as `R1.C1-R2.C2`, with rows and columns counted from one.
    pub fn to_string(self) -> (r: String)
        requires
            self.valid(),
        ensures
            r@ == gnu_location(
                self.start_spec().row,
                self.start_spec().column,
                self.end_spec().row,
                self.end_spec().column,
            ),
    {
        let start = self.start();
        let end = self.end();
        fmt_gnu(start.row, start.column, end.row, end.column)
    }
}

impl TextRange<Utf16Position> {
    /// The range as `R1.C1-R2.C2`, with rows and columns counted from one.
    pub fn to_string(self) -> (r: String)
        requires
            self.valid(),
        ensures
            r@ == gnu_location(
                self.start_spec().row,
                self.start_spec().column,
                self.end_spec().row,
                self.end_spec().column,
            ),
    {
        let start = self.start();
        let end = self.end();
        fmt_gnu(start.row, start.column, end.row, end.column)
    }
}

impl TextRange<CompositePosition> {
    /// The range as `R1.C1-R2.C2`, with rows and columns counted from one,
    /// and the columns in UTF-8 bytes.
    pub fn to_string(self) -> (r: String)
        requires
            self.valid(),
        ensures
            r@ == gnu_location(
                self.start_spec().row,
                self.start_spec().column8,
                self.end_spec().row,
                self.end_spec().column8,
            ),
    {
        let start = self.start();
        let end = self.end();
        fmt_gnu(start.row, start.column8, end.row, end.column8)
    }
}

} // verus!
