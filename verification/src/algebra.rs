//! The laws of the range algebra, proved for every position representation.
//!
//! Where a law needs the length between two positions to be exact, it asks
//! that the positions agree. That holds of every pair where the
//! representation carries a single measure, so for those the condition falls
//! away.

use crate::position::lemma_max;
use crate::position::lemma_max_associative;
use crate::position::lemma_min;
use crate::position::lemma_min_associative;
use crate::position::lemma_order_reflexive;
use crate::position::max_spec;
use crate::position::min_spec;
use crate::position::TextPosition;
use crate::range::TextRange;
use core::ops::Range;
use vstd::prelude::*;
use vstd::std_specs::convert::FromSpec;
use vstd::std_specs::ops::AddSpec;

verus! {

/// The interval from `a` to `b`, turned into a range and back, is the same
/// interval, where `a` lies at or before `b`.
pub proof fn lemma_interval_round_trip<P: TextPosition>(a: P, b: P)
    requires
        a.le_spec(b),
        a.agrees_with(b),
    ensures
        TextRange::<P>::from_spec(Range { start: a, end: b }).valid(),
        TextRange::<P>::from_spec(Range { start: a, end: b }).range_spec() == (Range {
            start: a,
            end: b,
        }),
{
    P::lemma_sub_then_add(a, b);
}

/// A valid range, turned into an interval and back, is the same range.
pub proof fn lemma_range_round_trip<P: TextPosition>(r: TextRange<P>)
    requires
        r.valid(),
    ensures
        TextRange::<P>::from_spec(r.range_spec()) == r,
{
    P::lemma_add_then_sub(r.index, r.len);
}

/// The start of a valid range lies at or before its end, and the two agree.
pub proof fn lemma_start_before_end<P: TextPosition>(r: TextRange<P>)
    requires
        r.valid(),
    ensures
        r.start_spec().le_spec(r.end_spec()),
        r.start_spec().agrees_with(r.end_spec()),
{
    P::lemma_add_advances(r.index, r.len);
}

/// A valid range contains its end and its start.
pub proof fn lemma_contains_endpoints<P: TextPosition>(r: TextRange<P>)
    requires
        r.valid(),
    ensures
        r.contains_inclusive_spec(r.end_spec()),
        r.contains_inclusive_spec(r.start_spec()),
{
    let s = r.start_spec();
    let e = r.end_spec();
    lemma_start_before_end(r);
    lemma_order_reflexive(s);
    lemma_order_reflexive(e);
    P::lemma_order_total(s, s);
    P::lemma_order_total(e, s);
}

/// An empty range starts and ends at its index.
pub proof fn lemma_empty_range<P: TextPosition>(index: P)
    ensures
        TextRange::empty_spec(index).valid(),
        TextRange::empty_spec(index).start_spec() == index,
        TextRange::empty_spec(index).end_spec() == index,
        TextRange::empty_spec(index).is_empty_spec(),
{
    P::lemma_add_zero(index);
}

/// Two valid ranges overlap exactly where the later of their starts lies at
/// or before the earlier of their ends.
pub proof fn lemma_overlaps_by_ends<P: TextPosition>(r1: TextRange<P>, r2: TextRange<P>)
    requires
        r1.valid(),
        r2.valid(),
    ensures
        r1.overlaps(r2) == max_spec(r1.start_spec(), r2.start_spec()).le_spec(
            min_spec(r1.end_spec(), r2.end_spec()),
        ),
{
    let s1 = r1.start_spec();
    let s2 = r2.start_spec();
    let e1 = r1.end_spec();
    let e2 = r2.end_spec();
    let s = max_spec(s1, s2);
    let e = min_spec(e1, e2);
    lemma_start_before_end(r1);
    lemma_start_before_end(r2);
    lemma_max(s1, s2);
    lemma_min(e1, e2);
    if s.le_spec(e) {
        P::lemma_order_transitive(s1, s, e);
        P::lemma_order_transitive(s1, e, e2);
        P::lemma_order_transitive(s2, s, e);
        P::lemma_order_transitive(s2, e, e1);
    }
}

/// Whether the ends of the two ranges agree with the starts of each other,
/// so that the lengths between them are exact.
pub open spec fn ranges_agree<P: TextPosition>(r1: TextRange<P>, r2: TextRange<P>) -> bool {
    r1.start_spec().agrees_with(r2.end_spec()) && r2.start_spec().agrees_with(r1.end_spec())
}

/// The join of two ranges does not depend on their order.
pub proof fn lemma_join_commutative<P: TextPosition>(r1: TextRange<P>, r2: TextRange<P>)
    ensures
        r1.join_spec(r2) == r2.join_spec(r1),
{
    lemma_min(r1.start_spec(), r2.start_spec());
    lemma_max(r1.end_spec(), r2.end_spec());
}

/// A valid range joined with itself is that range.
pub proof fn lemma_join_idempotent<P: TextPosition>(r: TextRange<P>)
    requires
        r.valid(),
    ensures
        r.join_spec(r) == r,
{
    lemma_order_reflexive(r.start_spec());
    lemma_order_reflexive(r.end_spec());
    P::lemma_add_then_sub(r.index, r.len);
}

/// The join of two ranges starts at the earlier of their starts and ends at
/// the later of their ends.
pub proof fn lemma_join_bounds<P: TextPosition>(r1: TextRange<P>, r2: TextRange<P>)
    requires
        r1.valid(),
        r2.valid(),
        ranges_agree(r1, r2),
    ensures
        r1.join_spec(r2).valid(),
        r1.join_spec(r2).start_spec() == min_spec(r1.start_spec(), r2.start_spec()),
        r1.join_spec(r2).end_spec() == max_spec(r1.end_spec(), r2.end_spec()),
{
    let s1 = r1.start_spec();
    let s2 = r2.start_spec();
    let e1 = r1.end_spec();
    let e2 = r2.end_spec();
    let s = min_spec(s1, s2);
    let e = max_spec(e1, e2);
    lemma_start_before_end(r1);
    lemma_start_before_end(r2);
    lemma_min(s1, s2);
    lemma_max(e1, e2);
    P::lemma_order_transitive(s, s1, e1);
    P::lemma_order_transitive(s, e1, e);
    P::lemma_sub_then_add(s, e);
}

/// The join of a valid range with others covers it, and covers the others.
pub proof fn lemma_join_covers<P: TextPosition>(r1: TextRange<P>, r2: TextRange<P>)
    requires
        r1.valid(),
        r2.valid(),
        ranges_agree(r1, r2),
    ensures
        r1.join_spec(r2).covers_spec(r1),
        r1.join_spec(r2).covers_spec(r2),
{
    lemma_join_bounds(r1, r2);
    lemma_min(r1.start_spec(), r2.start_spec());
    lemma_max(r1.end_spec(), r2.end_spec());
}

/// Joining three ranges does not depend on the grouping.
pub proof fn lemma_join_associative<P: TextPosition>(
    r1: TextRange<P>,
    r2: TextRange<P>,
    r3: TextRange<P>,
)
    requires
        r1.valid(),
        r2.valid(),
        r3.valid(),
        ranges_agree(r1, r2),
        ranges_agree(r2, r3),
    ensures
        r1.join_spec(r2).join_spec(r3) == r1.join_spec(r2.join_spec(r3)),
{
    lemma_join_bounds(r1, r2);
    lemma_join_bounds(r2, r3);
    lemma_min_associative(r1.start_spec(), r2.start_spec(), r3.start_spec());
    lemma_max_associative(r1.end_spec(), r2.end_spec(), r3.end_spec());
}

/// The meet of two ranges that overlap does not depend on their order.
pub proof fn lemma_meet_commutative<P: TextPosition>(r1: TextRange<P>, r2: TextRange<P>)
    requires
        r1.overlaps(r2),
    ensures
        r1.meet_spec(r2) == r2.meet_spec(r1),
{
    lemma_max(r1.start_spec(), r2.start_spec());
    lemma_min(r1.end_spec(), r2.end_spec());
}

/// Both of two ranges that overlap cover their meet.
pub proof fn lemma_meet_covered<P: TextPosition>(r1: TextRange<P>, r2: TextRange<P>)
    requires
        r1.valid(),
        r2.valid(),
        r1.overlaps(r2),
    ensures
        r1.meet_spec(r2).valid(),
        r1.covers_spec(r1.meet_spec(r2)),
        r2.covers_spec(r1.meet_spec(r2)),
{
    let s = max_spec(r1.start_spec(), r2.start_spec());
    let e = min_spec(r1.end_spec(), r2.end_spec());
    lemma_overlaps_by_ends(r1, r2);
    lemma_max(r1.start_spec(), r2.start_spec());
    lemma_min(r1.end_spec(), r2.end_spec());
    P::lemma_sub_then_add(s, e);
    let m = r1.meet_spec(r2);
    P::lemma_order_transitive(m.end_spec(), e, r1.end_spec());
    P::lemma_order_transitive(m.end_spec(), e, r2.end_spec());
}

/// The meet of two ranges that overlap starts at the later of their starts
/// and ends at the earlier of their ends.
pub proof fn lemma_meet_bounds<P: TextPosition>(r1: TextRange<P>, r2: TextRange<P>)
    requires
        r1.valid(),
        r2.valid(),
        r1.overlaps(r2),
        ranges_agree(r1, r2),
    ensures
        r1.meet_spec(r2).start_spec() == max_spec(r1.start_spec(), r2.start_spec()),
        r1.meet_spec(r2).end_spec() == min_spec(r1.end_spec(), r2.end_spec()),
{
    let s = max_spec(r1.start_spec(), r2.start_spec());
    let e = min_spec(r1.end_spec(), r2.end_spec());
    lemma_overlaps_by_ends(r1, r2);
    lemma_start_before_end(r1);
    lemma_start_before_end(r2);
    lemma_max(r1.start_spec(), r2.start_spec());
    lemma_min(r1.end_spec(), r2.end_spec());
    P::lemma_sub_then_add(s, e);
}

/// The meet of two ranges that do not overlap is empty, at the start of the
/// first.
pub proof fn lemma_meet_disjoint<P: TextPosition>(r1: TextRange<P>, r2: TextRange<P>)
    requires
        !r1.overlaps(r2),
    ensures
        r1.meet_spec(r2).is_empty_spec(),
        r1.meet_spec(r2) == TextRange::empty_spec(r1.start_spec()),
{
}

/// Every range covers itself.
pub proof fn lemma_covers_reflexive<P: TextPosition>(r: TextRange<P>)
    ensures
        r.covers_spec(r),
{
    lemma_order_reflexive(r.start_spec());
    lemma_order_reflexive(r.end_spec());
}

/// A range covers what a range that it covers covers.
pub proof fn lemma_covers_transitive<P: TextPosition>(
    r1: TextRange<P>,
    r2: TextRange<P>,
    r3: TextRange<P>,
)
    requires
        r1.covers_spec(r2),
        r2.covers_spec(r3),
    ensures
        r1.covers_spec(r3),
{
    P::lemma_order_transitive(r1.start_spec(), r2.start_spec(), r3.start_spec());
    P::lemma_order_transitive(r3.end_spec(), r2.end_spec(), r1.end_spec());
}

} // verus!
