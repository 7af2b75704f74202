//! Nearest-border, closed-form-slope bisector predicate.
//!
//! The perpendicular bisector of the chord `p1 p2` has slope `-dx/dy`. On the
//! border of the square nearest to `p1` the bisector is evaluated in closed
//! form, and the predicate holds exactly when the evaluated coordinate lies in
//! `[0, 1]`. All conditions are stated and decided in exact integer
//! arithmetic: the real test `0 <= y <= 1` on the fraction `n / (2 dy)` is the
//! integer test `0 <= n <= 2 dy SCALE` (reversed when `dy < 0`), and the
//! crossing itself is handed back as an exact fraction of raw units.

use vstd::prelude::*;
use crate::geometry::{Point, Border, SCALE, spec_nearest_border, nearest_border, lemma_mul_bound};

verus! {

/// The bisector of `p1 p2`, evaluated on the vertical border line `x = bx`
/// (raw units), meets it at a `y` within `[0, 1]`. False when the two points
/// share a `y` (the slope is degenerate there).
pub open spec fn linear_hit_vertical(p1: Point, p2: Point, bx: int) -> bool {
    let dx = p2.x - p1.x;
    let dy = p2.y - p1.y;
    let n = dy * (p1.y + p2.y) - dx * (2 * bx - p1.x - p2.x);
    if dy > 0 {
        0 <= n <= 2 * dy * SCALE
    } else if dy < 0 {
        2 * dy * SCALE <= n <= 0
    } else {
        false
    }
}

/// The bisector of `p1 p2`, evaluated on the horizontal border line `y = by`
/// (raw units), meets it at an `x` within `[0, 1]`. False when the two points
/// share an `x`.
pub open spec fn linear_hit_horizontal(p1: Point, p2: Point, by: int) -> bool {
    let dx = p2.x - p1.x;
    let dy = p2.y - p1.y;
    let n = dx * (p1.x + p2.x) - dy * (2 * by - p1.y - p2.y);
    if dx > 0 {
        0 <= n <= 2 * dx * SCALE
    } else if dx < 0 {
        2 * dx * SCALE <= n <= 0
    } else {
        false
    }
}

/// Numerator of the bisector's crossing with the vertical line `x = bx`: the
/// crossing sits at `y = num / den` in raw units, with the sign arranged so
/// that the denominator is positive.
pub open spec fn crossing_num_vertical(p1: Point, p2: Point, bx: int) -> int {
    let dx = p2.x - p1.x;
    let dy = p2.y - p1.y;
    let n = dy * (p1.y + p2.y) - dx * (2 * bx - p1.x - p2.x);
    if dy >= 0 {
        n
    } else {
        -n
    }
}

/// Denominator of the bisector's crossing with a vertical line: `2 |dy|`.
pub open spec fn crossing_den_vertical(p1: Point, p2: Point) -> int {
    let dy = p2.y - p1.y;
    if dy >= 0 {
        2 * dy
    } else {
        -2 * dy
    }
}

/// Numerator of the bisector's crossing with the horizontal line `y = by`.
pub open spec fn crossing_num_horizontal(p1: Point, p2: Point, by: int) -> int {
    let dx = p2.x - p1.x;
    let dy = p2.y - p1.y;
    let n = dx * (p1.x + p2.x) - dy * (2 * by - p1.y - p2.y);
    if dx >= 0 {
        n
    } else {
        -n
    }
}

/// Denominator of the bisector's crossing with a horizontal line: `2 |dx|`.
pub open spec fn crossing_den_horizontal(p1: Point, p2: Point) -> int {
    let dx = p2.x - p1.x;
    if dx >= 0 {
        2 * dx
    } else {
        -2 * dx
    }
}

/// The bisector of `p1 p2` meets the given border of the square within the
/// square's side.
pub open spec fn spec_border_hit(p1: Point, p2: Point, b: Border) -> bool {
    match b {
        Border::Left => linear_hit_vertical(p1, p2, 0),
        Border::Right => linear_hit_vertical(p1, p2, SCALE as int),
        Border::Bottom => linear_hit_horizontal(p1, p2, 0),
        Border::Top => linear_hit_horizontal(p1, p2, SCALE as int),
    }
}

/// The nearest-border, closed-form-slope predicate: the bisector of `p1 p2`
/// meets the border of the square nearest to `p1` within the square's side.
pub open spec fn spec_linear_hit(p1: Point, p2: Point) -> bool {
    spec_border_hit(p1, p2, spec_nearest_border(p1))
}

fn crossing_vertical(p1: &Point, p2: &Point, bx: i64) -> (r: Option<(i64, i64)>)
    requires
        p1.wf(),
        p2.wf(),
        bx == 0 || bx == SCALE,
    ensures
        r is Some <==> linear_hit_vertical(*p1, *p2, bx as int),
        r matches Some(c) ==> {
            &&& c.0 == crossing_num_vertical(*p1, *p2, bx as int)
            &&& c.1 == crossing_den_vertical(*p1, *p2)
            &&& c.1 > 0
            &&& 0 <= c.0 <= c.1 * SCALE
        },
{
    let dy: i64 = p2.y - p1.y;
    if dy == 0 {
        return None;
    }
    let dx: i64 = p2.x - p1.x;
    let sy: i64 = p1.y + p2.y;
    let t: i64 = 2 * bx - p1.x - p2.x;
    proof {
        lemma_mul_bound(dy as int, sy as int, SCALE as int, 2 * SCALE as int);
        lemma_mul_bound(dx as int, t as int, SCALE as int, 2 * SCALE as int);
        lemma_mul_bound(dy as int, SCALE as int, SCALE as int, SCALE as int);
    }
    let n: i64 = dy * sy - dx * t;
    let lim: i64 = 2 * (dy * SCALE);
    if dy > 0 {
        if 0 <= n && n <= lim {
            let den: i64 = 2 * dy;
            proof {
                assert(n <= den * SCALE) by (nonlinear_arith)
                    requires
                        n <= 2 * ((dy as int) * SCALE),
                        den == 2 * dy,
                ;
            }
            Some((n, den))
        } else {
            None
        }
    } else {
        if lim <= n && n <= 0 {
            let num: i64 = -n;
            let den: i64 = -2 * dy;
            proof {
                assert(num <= den * SCALE) by (nonlinear_arith)
                    requires
                        2 * ((dy as int) * SCALE) <= n,
                        num == -(n as int),
                        den == -2 * (dy as int),
                ;
            }
            Some((num, den))
        } else {
            None
        }
    }
}

fn crossing_horizontal(p1: &Point, p2: &Point, by: i64) -> (r: Option<(i64, i64)>)
    requires
        p1.wf(),
        p2.wf(),
        by == 0 || by == SCALE,
    ensures
        r is Some <==> linear_hit_horizontal(*p1, *p2, by as int),
        r matches Some(c) ==> {
            &&& c.0 == crossing_num_horizontal(*p1, *p2, by as int)
            &&& c.1 == crossing_den_horizontal(*p1, *p2)
            &&& c.1 > 0
            &&& 0 <= c.0 <= c.1 * SCALE
        },
{
    let dx: i64 = p2.x - p1.x;
    if dx == 0 {
        return None;
    }
    let dy: i64 = p2.y - p1.y;
    let sx: i64 = p1.x + p2.x;
    let t: i64 = 2 * by - p1.y - p2.y;
    proof {
        lemma_mul_bound(dx as int, sx as int, SCALE as int, 2 * SCALE as int);
        lemma_mul_bound(dy as int, t as int, SCALE as int, 2 * SCALE as int);
        lemma_mul_bound(dx as int, SCALE as int, SCALE as int, SCALE as int);
    }
    let n: i64 = dx * sx - dy * t;
    let lim: i64 = 2 * (dx * SCALE);
    if dx > 0 {
        if 0 <= n && n <= lim {
            let den: i64 = 2 * dx;
            proof {
                assert(n <= den * SCALE) by (nonlinear_arith)
                    requires
                        n <= 2 * ((dx as int) * SCALE),
                        den == 2 * dx,
                ;
            }
            Some((n, den))
        } else {
            None
        }
    } else {
        if lim <= n && n <= 0 {
            let num: i64 = -n;
            let den: i64 = -2 * dx;
            proof {
                assert(num <= den * SCALE) by (nonlinear_arith)
                    requires
                        2 * ((dx as int) * SCALE) <= n,
                        num == -(n as int),
                        den == -2 * (dx as int),
                ;
            }
            Some((num, den))
        } else {
            None
        }
    }
}

/// The bisector's crossing with one chosen border of the square, as the exact
/// fraction `num / den` of raw units (`den > 0`, and `num / den` lies in
/// `[0, SCALE]`). `None` exactly when the bisector misses the border within
/// `[0, 1]`, or is degenerate for the border's orientation.
pub fn border_crossing(p1: &Point, p2: &Point, b: Border) -> (r: Option<(i64, i64)>)
    requires
        p1.wf(),
        p2.wf(),
    ensures
        r is Some <==> spec_border_hit(*p1, *p2, b),
        r matches Some(c) ==> {
            &&& c.1 > 0
            &&& 0 <= c.0 <= c.1 * SCALE
            &&& match b {
                Border::Left => c.0 == crossing_num_vertical(*p1, *p2, 0) && c.1
                    == crossing_den_vertical(*p1, *p2),
                Border::Right => c.0 == crossing_num_vertical(*p1, *p2, SCALE as int) && c.1
                    == crossing_den_vertical(*p1, *p2),
                Border::Bottom => c.0 == crossing_num_horizontal(*p1, *p2, 0) && c.1
                    == crossing_den_horizontal(*p1, *p2),
                Border::Top => c.0 == crossing_num_horizontal(*p1, *p2, SCALE as int) && c.1
                    == crossing_den_horizontal(*p1, *p2),
            }
        },
{
    match b {
        Border::Left => crossing_vertical(p1, p2, 0),
        Border::Right => crossing_vertical(p1, p2, SCALE),
        Border::Bottom => crossing_horizontal(p1, p2, 0),
        Border::Top => crossing_horizontal(p1, p2, SCALE),
    }
}

/// The accepted crossing itself: the border nearest to `p1` together with the
/// exact crossing coordinate on it, as the fraction `num / den` of raw units
/// (`den > 0`, and `num / den` lies in `[0, SCALE]`). `None` exactly when the
/// nearest-border predicate is false.
pub fn nearest_linear_crossing(p1: &Point, p2: &Point) -> (r: Option<(Border, i64, i64)>)
    requires
        p1.wf(),
        p2.wf(),
    ensures
        r is Some <==> spec_linear_hit(*p1, *p2),
        r matches Some(c) ==> {
            &&& c.0 == spec_nearest_border(*p1)
            &&& c.2 > 0
            &&& 0 <= c.1 <= c.2 * SCALE
            &&& match c.0 {
                Border::Left => c.1 == crossing_num_vertical(*p1, *p2, 0) && c.2
                    == crossing_den_vertical(*p1, *p2),
                Border::Right => c.1 == crossing_num_vertical(*p1, *p2, SCALE as int) && c.2
                    == crossing_den_vertical(*p1, *p2),
                Border::Bottom => c.1 == crossing_num_horizontal(*p1, *p2, 0) && c.2
                    == crossing_den_horizontal(*p1, *p2),
                Border::Top => c.1 == crossing_num_horizontal(*p1, *p2, SCALE as int) && c.2
                    == crossing_den_horizontal(*p1, *p2),
            }
        },
{
    let border = nearest_border(p1);
    match border_crossing(p1, p2, border) {
        Some((num, den)) => Some((border, num, den)),
        None => None,
    }
}

/// Nearest-border, closed-form-slope variant of the bisector predicate.
pub fn bisector_hits_nearest_linear(p1: &Point, p2: &Point) -> (r: bool)
    requires
        p1.wf(),
        p2.wf(),
    ensures
        r == spec_linear_hit(*p1, *p2),
{
    nearest_linear_crossing(p1, p2).is_some()
}

} // verus!
