use vstd::prelude::*;

verus! {

/// Position of a value inside a bracket triple, in the order in which
/// the triple is carried (lower end, upper end, interior point).
#[derive(Debug, Clone, Copy, PartialEq, Eq)]
pub enum BracketSlot {
    First,
    Second,
    Third,
}

/// The best of a bracket's three values, over order keys, with ties
/// breaking toward the earlier slot.  The quadratic polish of the line
/// search starts from this point and only ever replaces it by a
/// strictly checked improvement.
pub open spec fn best_slot(f_first: u64, f_second: u64, f_third: u64) -> BracketSlot {
    if f_first <= f_second && f_first <= f_third {
        BracketSlot::First
    } else if f_second <= f_first && f_second <= f_third {
        BracketSlot::Second
    } else {
        BracketSlot::Third
    }
}

/// The value at a slot of the triple.
pub open spec fn slot_value(s: BracketSlot, f_first: u64, f_second: u64, f_third: u64) -> u64 {
    match s {
        BracketSlot::First => f_first,
        BracketSlot::Second => f_second,
        BracketSlot::Third => f_third,
    }
}

/// Picks the slot holding the least of the three values, ties breaking
/// toward the earlier slot.
pub fn best_of_three(f_first: u64, f_second: u64, f_third: u64) -> (r: BracketSlot)
    ensures
        r == best_slot(f_first, f_second, f_third),
        slot_value(r, f_first, f_second, f_third) <= f_first,
        slot_value(r, f_first, f_second, f_third) <= f_second,
        slot_value(r, f_first, f_second, f_third) <= f_third,
{
    if f_first <= f_second && f_first <= f_third {
        BracketSlot::First
    } else if f_second <= f_first && f_second <= f_third {
        BracketSlot::Second
    } else {
        BracketSlot::Third
    }
}

/// Whether the quadratic polish of the line search may use the vertex
/// of the interpolant through the bracket's three points, over order
/// keys: the interpolant must be convex — the sign of its leading
/// coefficient shows in `den` against the key of zero — and the vertex
/// must fall inside the bracket.  A concave interpolant has a maximum
/// at the vertex, and a vertex outside the bracket extrapolates; in
/// both cases the polish is skipped.
pub fn use_quadratic_vertex(den: u64, zero: u64, u: u64, lo: u64, hi: u64) -> (r: bool)
    ensures
        r <==> (den > zero && lo <= u && u <= hi),
{
    den > zero && lo <= u && u <= hi
}

/// One refinement step of the golden-section bracket: the larger
/// sub-interval was split at a new point with value `f_new`.  The
/// endpoint whose value is `f_end` is discarded — the search recurses
/// into the sub-triple through the new point — exactly when `f_end`
/// exceeds the least of the other three values; otherwise the triple
/// keeps that endpoint and recurses into the sub-triple away from the
/// new point.
pub fn discard_endpoint(f_end: u64, f_keep: u64, f_interior: u64, f_new: u64) -> (r: bool)
    ensures
        r <==> (f_end > f_new || f_end > f_interior || f_end > f_keep),
{
    f_end > f_new || f_end > f_interior || f_end > f_keep
}

} // verus!
