//! Fold-back transform of the scalar-integrand estimator.
//!
//! A trial of the integral estimator draws `(u, v)` uniformly from the unit
//! square and folds it into `(x, y)`: when `u + v > 1`,
//! `(x, y) = (u/2 + v - 1/2, (1 - u)/2)`, otherwise `(x, y) = (u/2 + v, u/2)`.
//! The halvings are kept exact by returning the coordinates at doubled
//! resolution: a result value `r` stands for the real number `r / (2 SCALE)`.
//!
//! The integrand itself divides by `x` and by `1 - x`. The transform never
//! produces `x = 0` or `x = 1` together with a non-zero `y`: at those edges
//! `y` is exactly zero, so the two arctangent terms of the integrand, whose
//! factors `x^2 + y^2` and `(1-x)^2 + y^2` vanish there, stay finite under a
//! guarded evaluation.

use vstd::prelude::*;
use crate::geometry::{SCALE, coord_ok};

verus! {

/// A folded sample, coordinates at doubled fixed-point resolution: the value
/// is `x2 / (2 SCALE)`, `y2 / (2 SCALE)`.
#[derive(Clone, Copy, PartialEq, Eq, Structural, Debug)]
pub struct FoldedPoint {
    pub x2: i64,
    pub y2: i64,
}

impl FoldedPoint {
    /// Both folded coordinates lie in `[0, 1]`.
    pub open spec fn wf(self) -> bool {
        0 <= self.x2 <= 2 * SCALE && 0 <= self.y2 <= 2 * SCALE
    }
}

/// The fold-back transform at doubled resolution, on raw values in
/// `[0, SCALE]`.
pub open spec fn spec_fold_back(u: int, v: int) -> (int, int) {
    if u + v > SCALE {
        (u + 2 * v - SCALE, SCALE - u)
    } else {
        (u + 2 * v, u)
    }
}

/// Folds one sampled pair `(u, v)` into the integrand's `(x, y)`.
pub fn fold_back(u: i64, v: i64) -> (fp: FoldedPoint)
    requires
        coord_ok(u),
        coord_ok(v),
    ensures
        fp.x2 == spec_fold_back(u as int, v as int).0,
        fp.y2 == spec_fold_back(u as int, v as int).1,
        fp.wf(),
        fp.x2 == 0 ==> fp.y2 == 0,
        fp.x2 == 2 * SCALE ==> fp.y2 == 0,
{
    if u + v > SCALE {
        FoldedPoint { x2: u + 2 * v - SCALE, y2: SCALE - u }
    } else {
        FoldedPoint { x2: u + 2 * v, y2: u }
    }
}

/// The integrand's denominators degenerate only where its numerators vanish:
/// a folded sample with `x = 0` or `x = 1` always carries `y = 0`, so the
/// guarded integrand is finite on the whole closed unit square of `(u, v)`.
pub proof fn lemma_fold_back_edges(u: int, v: int)
    requires
        0 <= u <= SCALE,
        0 <= v <= SCALE,
    ensures
        spec_fold_back(u, v).0 == 0 ==> spec_fold_back(u, v).1 == 0,
        spec_fold_back(u, v).0 == 2 * SCALE ==> spec_fold_back(u, v).1 == 0,
{
}

} // verus!
