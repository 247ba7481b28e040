//! Circle-circle overlap testing on integer coordinates.

use vstd::math::abs;
use vstd::prelude::*;

verus! {

/// Coordinates and radii handed to `overlaps` must stay within this bound so
/// that the squared distances below fit in an `i128`.
pub const COORD_LIMIT: i64 = 0x0800_0000_0000_0000;

/// Squared Euclidean distance between the two centers.
pub open spec fn dist_sq(ax: int, ay: int, bx: int, by: int) -> int {
    (ax - bx) * (ax - bx) + (ay - by) * (ay - by)
}

/// Two circles count as overlapping when the distance between their centers
/// lies between the difference and the sum of the radii. The lower bound is
/// deliberate: a circle strictly inside the other, without edge contact, is
/// not a hit.
pub open spec fn circles_overlap(ax: int, ay: int, ar: int, bx: int, by: int, br: int) -> bool {
    &&& (ar - br) * (ar - br) <= dist_sq(ax, ay, bx, by)
    &&& dist_sq(ax, ay, bx, by) <= (ar + br) * (ar + br)
}

/// A square grows with the magnitude of its argument.
proof fn lemma_square_bound(x: int, b: int)
    by (nonlinear_arith)
    requires
        -b <= x <= b,
    ensures
        0 <= x * x <= b * b,
{
}

/// Overlap test for the circle at `(ax, ay)` with radius `ar` against the
/// circle at `(bx, by)` with radius `br`.
pub fn overlaps(ax: i64, ay: i64, ar: i64, bx: i64, by: i64, br: i64) -> (r: bool)
    requires
        -COORD_LIMIT <= ax <= COORD_LIMIT,
        -COORD_LIMIT <= ay <= COORD_LIMIT,
        0 <= ar <= COORD_LIMIT,
        -COORD_LIMIT <= bx <= COORD_LIMIT,
        -COORD_LIMIT <= by <= COORD_LIMIT,
        0 <= br <= COORD_LIMIT,
    ensures
        r == circles_overlap(ax as int, ay as int, ar as int, bx as int, by as int, br as int),
{
    let dx: i128 = ax as i128 - bx as i128;
    let dy: i128 = ay as i128 - by as i128;
    proof {
        lemma_square_bound(dx as int, 2 * COORD_LIMIT as int);
        lemma_square_bound(dy as int, 2 * COORD_LIMIT as int);
    }
    let d2: i128 = dx * dx + dy * dy;
    let diff: i128 = ar as i128 - br as i128;
    let sum: i128 = ar as i128 + br as i128;
    proof {
        lemma_square_bound(diff as int, COORD_LIMIT as int);
        lemma_square_bound(sum as int, 2 * COORD_LIMIT as int);
    }
    diff * diff <= d2 && d2 <= sum * sum
}

/// Squaring preserves order on non-negative integers, in both directions.
proof fn lemma_square_le_iff(x: int, y: int)
    by (nonlinear_arith)
    requires
        0 <= x,
        0 <= y,
    ensures
        (x <= y) <==> (x * x <= y * y),
{
}

/// The square of a value equals the square of its absolute value.
proof fn lemma_abs_square(x: int)
    ensures
        abs(x) * abs(x) == x * x,
{
    if x < 0 {
        assert((-x) * (-x) == x * x) by (nonlinear_arith);
    }
}

/// Law: whenever the distance between the centers is an exact integer `d`,
/// the circles overlap exactly when `|ar - br| <= d <= ar + br`.
pub proof fn lemma_overlaps_characterizes_distance(
    ax: int,
    ay: int,
    ar: int,
    bx: int,
    by: int,
    br: int,
    d: int,
)
    requires
        0 <= ar,
        0 <= br,
        0 <= d,
        d * d == dist_sq(ax, ay, bx, by),
    ensures
        circles_overlap(ax, ay, ar, bx, by, br) <==> (abs(ar - br) <= d && d <= ar + br),
{
    lemma_abs_square(ar - br);
    lemma_square_le_iff(abs(ar - br) as int, d);
    lemma_square_le_iff(d, ar + br);
}

} // verus!
