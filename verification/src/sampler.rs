//! Chunk-local random sampling of unit-square coordinates.
//!
//! Each chunk owns one independently seeded pseudo-random stream; no
//! generator state is shared across chunks. The raw draws come from an
//! outside generator, so nothing is promised of their values beyond the
//! sampled range.

use vstd::prelude::*;
use rand::Rng;
use rand::SeedableRng;
use crate::geometry::{Point, SCALE, coord_ok};
use crate::counting::Trial;

verus! {

#[verifier::external_type_specification]
#[verifier::external_body]
pub struct ExXoshiro(rand_xoshiro::Xoshiro256Plus);

/// Relies on rand::random: one independently drawn seed word; nothing can be
/// promised of its value.
#[verifier::external_body]
pub(crate) fn fresh_seed() -> u64 {
    rand::random::<u64>()
}

/// Relies on rand_xoshiro::Xoshiro256Plus::seed_from_u64 (SeedableRng):
/// builds a chunk-local generator from one seed word.
#[verifier::external_body]
pub(crate) fn seed_rng(seed: u64) -> rand_xoshiro::Xoshiro256Plus {
    rand_xoshiro::Xoshiro256Plus::seed_from_u64(seed)
}

/// Relies on rand::Rng::gen_range over the non-empty inclusive range
/// `0..=SCALE`: the draw always lies within that range.
#[verifier::external_body]
pub(crate) fn sample_raw(rng: &mut rand_xoshiro::Xoshiro256Plus) -> (r: i64)
    ensures
        coord_ok(r),
{
    rng.gen_range(0..=SCALE)
}

/// Draws one uniformly distributed point of the closed unit square.
pub fn sample_point(rng: &mut rand_xoshiro::Xoshiro256Plus) -> (p: Point)
    ensures
        p.wf(),
{
    let x = sample_raw(rng);
    let y = sample_raw(rng);
    Point::new(x, y)
}

/// Draws one trial: two independently sampled points.
pub fn sample_trial(rng: &mut rand_xoshiro::Xoshiro256Plus) -> (t: Trial)
    ensures
        t.wf(),
{
    let p = sample_point(rng);
    let q = sample_point(rng);
    Trial::new(p, q)
}

/// Draws a whole chunk of trials from one chunk-local stream.
pub fn sample_trials(rng: &mut rand_xoshiro::Xoshiro256Plus, n: usize) -> (ts: Vec<Trial>)
    ensures
        ts@.len() == n,
        forall|j: int| 0 <= j < ts@.len() ==> (#[trigger] ts@[j]).wf(),
{
    let mut ts: Vec<Trial> = Vec::new();
    let mut i: usize = 0;
    while i < n
        invariant
            0 <= i <= n,
            ts@.len() == i,
            forall|j: int| 0 <= j < ts@.len() ==> (#[trigger] ts@[j]).wf(),
        decreases n - i,
    {
        let t = sample_trial(rng);
        ts.push(t);
        i = i + 1;
    }
    ts
}

} // verus!
