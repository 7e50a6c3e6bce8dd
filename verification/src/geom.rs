//! Axis-aligned square-region containment.
//!
//! Movement and attack legality both use the same spatial rule: a target
//! cell is reachable from a center cell iff it lies within the square of
//! half-width `radius` centered there (Chebyshev distance at most `radius`).
//! The boundary is inclusive.

use vstd::prelude::*;

verus! {

/// `(px, py)` lies within the square of half-width `radius` centered on
/// `(cx, cy)`, boundary included.
pub open spec fn in_square(cx: int, cy: int, radius: int, px: int, py: int) -> bool {
    &&& cx - radius <= px <= cx + radius
    &&& cy - radius <= py <= cy + radius
}

/// Decides [`in_square`] on machine integers.  The comparisons are done in
/// 64 bits, so no coordinate or radius combination can overflow.
pub fn in_range(cx: i32, cy: i32, radius: i32, px: i32, py: i32) -> (r: bool)
    ensures
        r == in_square(cx as int, cy as int, radius as int, px as int, py as int),
{
    let cx64: i64 = cx as i64;
    let cy64: i64 = cy as i64;
    let r64: i64 = radius as i64;
    let px64: i64 = px as i64;
    let py64: i64 = py as i64;
    cx64 - r64 <= px64 && px64 <= cx64 + r64 && cy64 - r64 <= py64 && py64 <= cy64 + r64
}

/// Square-region containment is inclusive of the boundary: a target exactly
/// `radius` cells away along either axis (or both) is in range, and a target
/// `radius + 1` cells away is not.
pub proof fn lemma_square_boundary_inclusive(cx: int, cy: int, radius: int)
    requires
        radius >= 0,
    ensures
        in_square(cx, cy, radius, cx + radius, cy),
        in_square(cx, cy, radius, cx - radius, cy),
        in_square(cx, cy, radius, cx, cy + radius),
        in_square(cx, cy, radius, cx, cy - radius),
        in_square(cx, cy, radius, cx + radius, cy + radius),
        !in_square(cx, cy, radius, cx + radius + 1, cy),
        !in_square(cx, cy, radius, cx - radius - 1, cy),
        !in_square(cx, cy, radius, cx, cy + radius + 1),
        !in_square(cx, cy, radius, cx, cy - radius - 1),
{
}

} // verus!
