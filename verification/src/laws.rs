//! Laws that relate the predicate variants.

use vstd::prelude::*;
use crate::geometry::Point;
use crate::linear::{spec_linear_hit, crossing_num_vertical, crossing_den_vertical,
    crossing_num_horizontal, crossing_den_horizontal};
use crate::quadratic::{spec_quad_nearest_hit, spec_quad_scan_hit};

verus! {

/// The closed-form crossing really lies on the perpendicular bisector: the
/// point `(bx, n / d)` on a vertical border line is equidistant from `p1` and
/// `p2`. Stated with both squared distances scaled by `d^2` to stay in
/// integers.
#[verifier::rlimit(100)]
pub proof fn lemma_crossing_equidistant_vertical(p1: Point, p2: Point, bx: int)
    ensures
        ({
            let n = crossing_num_vertical(p1, p2, bx);
            let d = crossing_den_vertical(p1, p2);
            (bx - p1.x) * (bx - p1.x) * (d * d) + (n - d * p1.y) * (n - d * p1.y) == (bx - p2.x) * (
            bx - p2.x) * (d * d) + (n - d * p2.y) * (n - d * p2.y)
        }),
{
    let dx = p2.x - p1.x as int;
    let dy = p2.y - p1.y as int;
    let nn = dy * (p1.y + p2.y) - dx * (2 * bx - p1.x - p2.x);
    let n = crossing_num_vertical(p1, p2, bx);
    let d = crossing_den_vertical(p1, p2);
    assert((n == nn && d == 2 * dy) || (n == -nn && d == -2 * dy));
    assert((bx - p1.x) * (bx - p1.x) * (d * d) + (n - d * p1.y) * (n - d * p1.y) == (bx - p2.x) * (
    bx - p2.x) * (d * d) + (n - d * p2.y) * (n - d * p2.y)) by (nonlinear_arith)
        requires
            (n == nn && d == 2 * dy) || (n == -nn && d == -2 * dy),
            nn == dy * (p1.y + p2.y) - dx * (2 * bx - p1.x - p2.x),
            dx == p2.x - p1.x as int,
            dy == p2.y - p1.y as int,
    ;
}

/// The horizontal counterpart: the point `(n / d, by)` on a horizontal border
/// line is equidistant from `p1` and `p2`.
#[verifier::rlimit(100)]
pub proof fn lemma_crossing_equidistant_horizontal(p1: Point, p2: Point, by: int)
    ensures
        ({
            let n = crossing_num_horizontal(p1, p2, by);
            let d = crossing_den_horizontal(p1, p2);
            (n - d * p1.x) * (n - d * p1.x) + (by - p1.y) * (by - p1.y) * (d * d) == (n - d * p2.x)
                * (n - d * p2.x) + (by - p2.y) * (by - p2.y) * (d * d)
        }),
{
    let dx = p2.x - p1.x as int;
    let dy = p2.y - p1.y as int;
    let nn = dx * (p1.x + p2.x) - dy * (2 * by - p1.y - p2.y);
    let n = crossing_num_horizontal(p1, p2, by);
    let d = crossing_den_horizontal(p1, p2);
    assert((n == nn && d == 2 * dx) || (n == -nn && d == -2 * dx));
    assert((n - d * p1.x) * (n - d * p1.x) + (by - p1.y) * (by - p1.y) * (d * d) == (n - d * p2.x)
        * (n - d * p2.x) + (by - p2.y) * (by - p2.y) * (d * d)) by (nonlinear_arith)
        requires
            (n == nn && d == 2 * dx) || (n == -nn && d == -2 * dx),
            nn == dx * (p1.x + p2.x) - dy * (2 * by - p1.y - p2.y),
            dx == p2.x - p1.x as int,
            dy == p2.y - p1.y as int,
    ;
}

/// The nearest-border closed-form-slope variant and the nearest-border
/// quadratic-root variant agree on every input: both decide whether the
/// perpendicular bisector of `p1 p2` meets the border nearest to `p1` inside
/// the square's side, by different derivations. On coincident points both are
/// false, so no input needs excluding.
pub proof fn lemma_nearest_variants_agree(p1: Point, p2: Point)
    ensures
        spec_quad_nearest_hit(p1, p2) == spec_linear_hit(p1, p2),
{
}

/// Coincident points have no meaningful bisector: every predicate variant
/// returns false for them. The closed-form-slope variant is degenerate in
/// both orientations (`dx` and `dy` both vanish), and the quadratic variants
/// treat coincidence as a defined false outcome.
pub proof fn lemma_coincident_no_bisector(p1: Point, p2: Point)
    requires
        p1 == p2,
    ensures
        !spec_linear_hit(p1, p2),
        !spec_quad_nearest_hit(p1, p2),
        !spec_quad_scan_hit(p1, p2),
{
}

} // verus!
