//! Positions as offsets in UTF-8 bytes.

use crate::position::PositionOrder;
use crate::position::TextPosition;
use crate::text::clamp_u32;
use crate::text::utf8_size;
use core::ops::Add;
use vstd::prelude::*;
use vstd::std_specs::convert::FromSpec;
use vstd::std_specs::ops::AddSpecImpl;

verus! {

/// A position as the number of UTF-8 bytes before it.
#[derive(Copy, Clone, PartialEq, Eq, PartialOrd, Ord, Hash, Debug, Structural)]
pub struct Utf8Index {
    /// Zero-based offset in bytes.
    pub index: u32,
}

impl Utf8Index {
    /// The position `index` bytes into the text.
    pub fn new(index: u32) -> (r: Self)
        ensures
            r.index == index,
    {
        Utf8Index { index }
    }
}

impl Default for Utf8Index {
    fn default() -> (r: Self)
        ensures
            r == Self::zero_spec(),
    {
        Utf8Index { index: 0 }
    }
}

impl AddSpecImpl for Utf8Index {
    open spec fn obeys_add_spec() -> bool {
        true
    }

    open spec fn add_req(self, rhs: Self) -> bool {
        self.index + rhs.index <= u32::MAX
    }

    open spec fn add_spec(self, rhs: Self) -> Self {
        Utf8Index { index: (self.index + rhs.index) as u32 }
    }
}

impl Add for Utf8Index {
    type Output = Utf8Index;

    fn add(self, rhs: Self) -> (r: Self) {
        Utf8Index { index: self.index + rhs.index }
    }
}

impl PositionOrder<Utf8Index> for Utf8Index {
    open spec fn le_spec(self, other: Utf8Index) -> bool {
        self.index <= other.index
    }

    open spec fn ge_spec(self, other: Utf8Index) -> bool {
        self.index >= other.index
    }

    fn at_or_before(&self, other: &Utf8Index) -> (r: bool) {
        self.index <= other.index
    }

    fn at_or_after(&self, other: &Utf8Index) -> (r: bool) {
        self.index >= other.index
    }
}

impl TextPosition for Utf8Index {
    open spec fn zero_spec() -> Self {
        Utf8Index { index: 0 }
    }

    open spec fn sub_spec(self, rhs: Self) -> Self {
        Utf8Index {
            index: if self.index >= rhs.index {
                (self.index - rhs.index) as u32
            } else {
                0
            },
        }
    }

    open spec fn agrees_with(self, other: Self) -> bool {
        true
    }

    open spec fn of_text(text: Seq<char>) -> Self {
        Utf8Index { index: clamp_u32(utf8_size(text)) }
    }

    fn zero() -> (r: Self) {
        Utf8Index { index: 0 }
    }

    fn from_str(s: &str) -> (r: Self) {
        let n: usize = s.as_bytes().len();
        if n > u32::MAX as usize {
            Utf8Index { index: u32::MAX }
        } else {
            Utf8Index { index: n as u32 }
        }
    }

    fn saturating_sub(self, rhs: Self) -> (r: Self) {
        Utf8Index { index: self.index.saturating_sub(rhs.index) }
    }

    proof fn lemma_order_total(a: Self, b: Self) {
    }

    proof fn lemma_order_transitive(a: Self, b: Self, c: Self) {
    }

    proof fn lemma_order_antisymmetric(a: Self, b: Self) {
    }

    proof fn lemma_add_obeys() {
    }

    proof fn lemma_add_zero(a: Self) {
    }

    proof fn lemma_add_advances(a: Self, len: Self) {
    }

    proof fn lemma_add_then_sub(a: Self, len: Self) {
    }

    proof fn lemma_sub_saturates(a: Self, b: Self) {
    }

    proof fn lemma_sub_then_add(a: Self, b: Self) {
    }

    proof fn lemma_agrees_symmetric(a: Self, b: Self) {
    }
}

impl<'a> vstd::std_specs::convert::FromSpecImpl<&'a str> for Utf8Index {
    open spec fn obeys_from_spec() -> bool {
        true
    }

    open spec fn from_spec(s: &'a str) -> Self {
        Self::of_text(s@)
    }
}

impl<'a> From<&'a str> for Utf8Index {
    fn from(s: &'a str) -> (r: Self) {
        Self::from_str(s)
    }
}

} // verus!
