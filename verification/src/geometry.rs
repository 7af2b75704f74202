//! Points of the unit square and the border nearest to a point.

use vstd::prelude::*;

verus! {

/// Fixed-point resolution: a raw coordinate `r` stands for the real number
/// `r / SCALE`, so `0 <= r <= SCALE` means the coordinate lies in the closed
/// interval `[0, 1]`.
pub const SCALE: i64 = 1_000_000;

/// A raw coordinate that lies inside the closed unit interval.
pub open spec fn coord_ok(c: i64) -> bool {
    0 <= c <= SCALE
}

/// A point of the closed unit square, both coordinates fixed-point.
#[derive(Clone, Copy, PartialEq, Eq, Structural, Debug)]
pub struct Point {
    pub x: i64,
    pub y: i64,
}

impl Point {
    /// Both coordinates lie in `[0, 1]`.
    pub open spec fn wf(self) -> bool {
        coord_ok(self.x) && coord_ok(self.y)
    }

    pub fn new(x: i64, y: i64) -> (p: Point)
        requires
            coord_ok(x),
            coord_ok(y),
        ensures
            p.wf(),
            p.x == x,
            p.y == y,
    {
        Point { x, y }
    }
}

/// One of the four edges of the unit square.
#[derive(Clone, Copy, PartialEq, Eq, Structural, Debug)]
pub enum Border {
    Left,
    Right,
    Bottom,
    Top,
}

/// Raw distance from a point to a border of the square.
pub open spec fn border_dist(p: Point, b: Border) -> int {
    match b {
        Border::Left => p.x as int,
        Border::Right => SCALE - p.x,
        Border::Bottom => p.y as int,
        Border::Top => SCALE - p.y,
    }
}

/// The border nearest to `p`; ties resolve in the fixed order
/// left, right, bottom, top.
pub open spec fn spec_nearest_border(p: Point) -> Border {
    if p.x <= SCALE - p.x && p.x <= p.y && p.x <= SCALE - p.y {
        Border::Left
    } else if SCALE - p.x <= p.y && SCALE - p.x <= SCALE - p.y {
        Border::Right
    } else if p.y <= SCALE - p.y {
        Border::Bottom
    } else {
        Border::Top
    }
}

/// Picks the border of the square with the least distance to `p`.
pub fn nearest_border(p: &Point) -> (b: Border)
    requires
        p.wf(),
    ensures
        b == spec_nearest_border(*p),
        border_dist(*p, b) <= border_dist(*p, Border::Left),
        border_dist(*p, b) <= border_dist(*p, Border::Right),
        border_dist(*p, b) <= border_dist(*p, Border::Bottom),
        border_dist(*p, b) <= border_dist(*p, Border::Top),
{
    let dl: i64 = p.x;
    let dr: i64 = SCALE - p.x;
    let db: i64 = p.y;
    let dt: i64 = SCALE - p.y;
    if dl <= dr && dl <= db && dl <= dt {
        Border::Left
    } else if dr <= db && dr <= dt {
        Border::Right
    } else if db <= dt {
        Border::Bottom
    } else {
        Border::Top
    }
}

/// Product bound: factors bounded in magnitude give a bounded product.
pub proof fn lemma_mul_bound(a: int, b: int, ma: int, mb: int)
    by (nonlinear_arith)
    requires
        -ma <= a <= ma,
        -mb <= b <= mb,
        0 <= ma,
        0 <= mb,
    ensures
        -(ma * mb) <= a * b <= ma * mb,
{
}

} // verus!
