//! Quadratic-root, border-scan bisector predicate.
//!
//! For a border at fixed `x`, a point `(x, t)` equidistant from `p1` and `p2`
//! satisfies `(x - p1.x)^2 + (t - p1.y)^2 = (x - p2.x)^2 + (t - p2.y)^2`.
//! Written as a quadratic in the free coordinate `t`, the two `t^2` terms
//! carry equal coefficients and cancel, so the discriminant test collapses: a
//! real root exists exactly when the remaining equation
//! `2 dy t = p2.y^2 - p1.y^2 + (x - p2.x)^2 - (x - p1.x)^2` has a solution
//! (the `x`-analogue on a horizontal border), and a root is accepted when it
//! lies in `[0, 1]`. That is the same exact integer condition the
//! closed-form-slope derivation decides, and the accepted root itself is the
//! rational crossing `num / den`.
//!
//! What distinguishes the variants is the border-selection policy: the border
//! nearest to the first point only, or all four borders in the fixed fallback
//! order left, right, bottom, top. Coincident points have no meaningful
//! bisector: a defined false outcome, never an error.

use vstd::prelude::*;
use crate::geometry::{Point, Border, SCALE, spec_nearest_border, nearest_border};
use crate::linear::{spec_border_hit, border_crossing, crossing_num_vertical, crossing_den_vertical,
    crossing_num_horizontal, crossing_den_horizontal};

verus! {

/// The quadratic-root test on one chosen border: the collapsed equidistance
/// equation has a root accepted in `[0, 1]` there. Coincident points are a
/// defined outcome: false.
pub open spec fn spec_quad_border_hit(p1: Point, p2: Point, b: Border) -> bool {
    p1 != p2 && spec_border_hit(p1, p2, b)
}

/// Quadratic-root variant restricted to the border nearest to `p1`.
pub open spec fn spec_quad_nearest_hit(p1: Point, p2: Point) -> bool {
    spec_quad_border_hit(p1, p2, spec_nearest_border(p1))
}

/// The first border, in the fixed fallback order left, right, bottom, top,
/// on which the quadratic-root test accepts a root, if any.
pub open spec fn spec_scan_first(p1: Point, p2: Point) -> Option<Border> {
    if spec_quad_border_hit(p1, p2, Border::Left) {
        Some(Border::Left)
    } else if spec_quad_border_hit(p1, p2, Border::Right) {
        Some(Border::Right)
    } else if spec_quad_border_hit(p1, p2, Border::Bottom) {
        Some(Border::Bottom)
    } else if spec_quad_border_hit(p1, p2, Border::Top) {
        Some(Border::Top)
    } else {
        None
    }
}

/// Quadratic-root variant scanning all four borders in the fixed order.
pub open spec fn spec_quad_scan_hit(p1: Point, p2: Point) -> bool {
    spec_scan_first(p1, p2) is Some
}

/// The quadratic-root test on one chosen border of the square.
pub fn quad_border_hit(p1: &Point, p2: &Point, b: Border) -> (r: bool)
    requires
        p1.wf(),
        p2.wf(),
    ensures
        r == spec_quad_border_hit(*p1, *p2, b),
{
    if p1.x == p2.x && p1.y == p2.y {
        return false;
    }
    border_crossing(p1, p2, b).is_some()
}

/// Quadratic-root variant of the bisector predicate, evaluated only on the
/// border nearest to `p1`.
pub fn bisector_hits_nearest_quadratic(p1: &Point, p2: &Point) -> (r: bool)
    requires
        p1.wf(),
        p2.wf(),
    ensures
        r == spec_quad_nearest_hit(*p1, *p2),
{
    let b = nearest_border(p1);
    quad_border_hit(p1, p2, b)
}

/// Scans the four borders in the fixed fallback order and returns the first
/// border whose quadratic test accepts a root, together with the accepted
/// root itself: the exact crossing `num / den` (raw units) on that border.
pub fn scan_borders_first(p1: &Point, p2: &Point) -> (r: Option<(Border, i64, i64)>)
    requires
        p1.wf(),
        p2.wf(),
    ensures
        (r is Some) == spec_quad_scan_hit(*p1, *p2),
        r matches Some(c) ==> {
            &&& spec_scan_first(*p1, *p2) == Some(c.0)
            &&& c.2 > 0
            &&& 0 <= c.1 <= c.2 * SCALE
            &&& match c.0 {
                Border::Left => c.1 == crossing_num_vertical(*p1, *p2, 0) && c.2
                    == crossing_den_vertical(*p1, *p2),
                Border::Right => c.1 == crossing_num_vertical(*p1, *p2, SCALE as int) && c.2
                    == crossing_den_vertical(*p1, *p2),
                Border::Bottom => c.1 == crossing_num_horizontal(*p1, *p2, 0) && c.2
                    == crossing_den_horizontal(*p1, *p2),
                Border::Top => c.1 == crossing_num_horizontal(*p1, *p2, SCALE as int) && c.2
                    == crossing_den_horizontal(*p1, *p2),
            }
        },
{
    if p1.x == p2.x && p1.y == p2.y {
        return None;
    }
    match border_crossing(p1, p2, Border::Left) {
        Some((num, den)) => { return Some((Border::Left, num, den)) },
        None => {},
    }
    match border_crossing(p1, p2, Border::Right) {
        Some((num, den)) => { return Some((Border::Right, num, den)) },
        None => {},
    }
    match border_crossing(p1, p2, Border::Bottom) {
        Some((num, den)) => { return Some((Border::Bottom, num, den)) },
        None => {},
    }
    match border_crossing(p1, p2, Border::Top) {
        Some((num, den)) => { return Some((Border::Top, num, den)) },
        None => {},
    }
    None
}

/// Quadratic-root variant of the bisector predicate over all four borders.
pub fn bisector_hits_scan_quadratic(p1: &Point, p2: &Point) -> (r: bool)
    requires
        p1.wf(),
        p2.wf(),
    ensures
        r == spec_quad_scan_hit(*p1, *p2),
{
    scan_borders_first(p1, p2).is_some()
}

} // verus!
