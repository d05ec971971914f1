//! What a position representation has to offer before ranges can be built on it.
//!
//! A position is a location in a text under one way of measuring: a byte
//! offset, a row and a column, or several of these at once. A length is a
//! value of the same type, read as the distance between two positions.

use core::ops::Add;
use vstd::prelude::*;
use vstd::std_specs::ops::AddSpec;

verus! {

/// Comparison of a position with a position of the representation `Rhs`.
///
/// With `Rhs = Self` this is the order of one representation. With another
/// `Rhs` it answers whether a position lies before, at or after a position
/// that was measured in another way, for the pairs of representations that
/// can be compared without loss.
pub trait PositionOrder<Rhs>: Sized {
    /// `self` lies at or before `other`.
    spec fn le_spec(self, other: Rhs) -> bool;

    /// `self` lies at or after `other`.
    spec fn ge_spec(self, other: Rhs) -> bool;

    /// Whether `self` lies at or before `other`.
    fn at_or_before(&self, other: &Rhs) -> (r: bool)
        ensures
            r == self.le_spec(*other),
    ;

    /// Whether `self` lies at or after `other`.
    fn at_or_after(&self, other: &Rhs) -> (r: bool)
        ensures
            r == self.ge_spec(*other),
    ;
}

/// A representation of positions in a text.
///
/// The operations are a zero, a total order, addition of a length (the `+` of
/// `core::ops::Add`, which asks that the sum is representable) and a
/// saturating difference. The proof functions are the laws that each
/// representation has to prove of them, and on which the range algebra rests.
pub trait TextPosition: Copy + Add<Output = Self> + PositionOrder<Self> {
    /// The start of the text, which is also the empty length.
    spec fn zero_spec() -> Self;

    /// The length from `rhs` to `self`, or zero where `self` cannot be reached
    /// from `rhs` by adding a length.
    spec fn sub_spec(self, rhs: Self) -> Self;

    /// Whether every measure that the representation carries puts the two
    /// positions in the same order, as two positions in one text are. Between
    /// such positions the difference is exact. It holds of every pair where
    /// the representation carries a single measure.
    spec fn agrees_with(self, other: Self) -> bool;

    /// The position just behind `text`.
    spec fn of_text(text: Seq<char>) -> Self;

    /// The start of the text.
    fn zero() -> (r: Self)
        ensures
            r == Self::zero_spec(),
    ;

    /// The position just behind `s`, which is also the length of `s`.
    fn from_str(s: &str) -> (r: Self)
        ensures
            r == Self::of_text(s@),
    ;

    /// The length from `rhs` to `self`, clamped to zero.
    fn saturating_sub(self, rhs: Self) -> (r: Self)
        ensures
            r == self.sub_spec(rhs),
    ;

    /// Any two positions are ordered, and `ge_spec` is `le_spec` read from
    /// the other side.
    proof fn lemma_order_total(a: Self, b: Self)
        ensures
            a.le_spec(b) || b.le_spec(a),
            a.ge_spec(b) == b.le_spec(a),
    ;

    /// The order is transitive.
    proof fn lemma_order_transitive(a: Self, b: Self, c: Self)
        requires
            a.le_spec(b),
            b.le_spec(c),
        ensures
            a.le_spec(c),
    ;

    /// Positions that are ordered both ways are equal.
    proof fn lemma_order_antisymmetric(a: Self, b: Self)
        requires
            a.le_spec(b),
            b.le_spec(a),
        ensures
            a == b,
    ;

    /// `+` returns what `add_spec` says.
    proof fn lemma_add_obeys()
        ensures
            Self::obeys_add_spec(),
    ;

    /// Zero is neutral on both sides of `+`.
    proof fn lemma_add_zero(a: Self)
        ensures
            a.add_req(Self::zero_spec()),
            a.add_spec(Self::zero_spec()) == a,
            Self::zero_spec().add_req(a),
            Self::zero_spec().add_spec(a) == a,
    ;

    /// Adding a length never moves a position backwards, and the sum agrees
    /// with the position it was reached from.
    proof fn lemma_add_advances(a: Self, len: Self)
        requires
            a.add_req(len),
        ensures
            a.le_spec(a.add_spec(len)),
            a.agrees_with(a.add_spec(len)),
    ;

    /// The difference undoes an addition.
    proof fn lemma_add_then_sub(a: Self, len: Self)
        requires
            a.add_req(len),
        ensures
            a.add_spec(len).sub_spec(a) == len,
    ;

    /// The difference saturates: it is zero where the left side does not lie
    /// behind the right side.
    proof fn lemma_sub_saturates(a: Self, b: Self)
        requires
            a.le_spec(b),
        ensures
            a.sub_spec(b) == Self::zero_spec(),
    ;

    /// The difference can be added back without overshooting, and brings back
    /// the position it was taken from where the two agree.
    proof fn lemma_sub_then_add(a: Self, b: Self)
        requires
            a.le_spec(b),
        ensures
            a.add_req(b.sub_spec(a)),
            a.add_spec(b.sub_spec(a)).le_spec(b),
            a.agrees_with(b) ==> a.add_spec(b.sub_spec(a)) == b,
    ;

    /// Agreement does not depend on the side.
    proof fn lemma_agrees_symmetric(a: Self, b: Self)
        ensures
            a.agrees_with(b) == b.agrees_with(a),
    ;
}

/// The earlier of two positions.
pub open spec fn min_spec<P: TextPosition>(a: P, b: P) -> P {
    if a.le_spec(b) {
        a
    } else {
        b
    }
}

/// The later of two positions.
pub open spec fn max_spec<P: TextPosition>(a: P, b: P) -> P {
    if a.le_spec(b) {
        b
    } else {
        a
    }
}

/// The earlier of two positions.
pub fn min_position<P: TextPosition>(a: P, b: P) -> (r: P)
    ensures
        r == min_spec(a, b),
{
    if a.at_or_before(&b) {
        a
    } else {
        b
    }
}

/// The later of two positions.
pub fn max_position<P: TextPosition>(a: P, b: P) -> (r: P)
    ensures
        r == max_spec(a, b),
{
    if a.at_or_before(&b) {
        b
    } else {
        a
    }
}

/// Zero lies at or before every position.
pub proof fn lemma_zero_is_least<P: TextPosition>(a: P)
    ensures
        P::zero_spec().le_spec(a),
{
    P::lemma_add_zero(a);
    P::lemma_add_advances(P::zero_spec(), a);
}

/// Every position lies at or before itself.
pub proof fn lemma_order_reflexive<P: TextPosition>(a: P)
    ensures
        a.le_spec(a),
{
    P::lemma_order_total(a, a);
}

/// The earlier of two positions is one of them, lies at or before both, and
/// does not depend on their order.
pub proof fn lemma_min<P: TextPosition>(a: P, b: P)
    ensures
        min_spec(a, b) == a || min_spec(a, b) == b,
        min_spec(a, b).le_spec(a),
        min_spec(a, b).le_spec(b),
        min_spec(a, b) == min_spec(b, a),
{
    P::lemma_order_total(a, b);
    lemma_order_reflexive(a);
    lemma_order_reflexive(b);
    if a.le_spec(b) && b.le_spec(a) {
        P::lemma_order_antisymmetric(a, b);
    }
}

/// The later of two positions is one of them, lies at or behind both, and
/// does not depend on their order.
pub proof fn lemma_max<P: TextPosition>(a: P, b: P)
    ensures
        max_spec(a, b) == a || max_spec(a, b) == b,
        a.le_spec(max_spec(a, b)),
        b.le_spec(max_spec(a, b)),
        max_spec(a, b) == max_spec(b, a),
{
    P::lemma_order_total(a, b);
    lemma_order_reflexive(a);
    lemma_order_reflexive(b);
    if a.le_spec(b) && b.le_spec(a) {
        P::lemma_order_antisymmetric(a, b);
    }
}

/// Taking the earlier of three positions does not depend on the grouping.
pub proof fn lemma_min_associative<P: TextPosition>(a: P, b: P, c: P)
    ensures
        min_spec(min_spec(a, b), c) == min_spec(a, min_spec(b, c)),
{
    P::lemma_order_total(a, b);
    P::lemma_order_total(b, c);
    P::lemma_order_total(a, c);
    if a.le_spec(b) && b.le_spec(c) {
        P::lemma_order_transitive(a, b, c);
    }
    if c.le_spec(b) && b.le_spec(a) {
        P::lemma_order_transitive(c, b, a);
    }
    if a.le_spec(c) && c.le_spec(a) {
        P::lemma_order_antisymmetric(a, c);
    }
}

/// Taking the later of three positions does not depend on the grouping.
pub proof fn lemma_max_associative<P: TextPosition>(a: P, b: P, c: P)
    ensures
        max_spec(max_spec(a, b), c) == max_spec(a, max_spec(b, c)),
{
    P::lemma_order_total(a, b);
    P::lemma_order_total(b, c);
    P::lemma_order_total(a, c);
    if a.le_spec(b) && b.le_spec(c) {
        P::lemma_order_transitive(a, b, c);
    }
    if c.le_spec(b) && b.le_spec(a) {
        P::lemma_order_transitive(c, b, a);
    }
    if a.le_spec(c) && c.le_spec(a) {
        P::lemma_order_antisymmetric(a, c);
    }
}

} // verus!
