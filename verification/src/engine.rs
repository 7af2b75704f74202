//! Work partitioning, per-chunk workers, reduction, and progress accounting.

use vstd::prelude::*;
use crate::counting::{Strategy, eval_trial};
use crate::geometry::lemma_mul_bound;
use crate::sampler::{fresh_seed, seed_rng, sample_trial};

verus! {

/// Shared progress state: one tick per completed chunk, monotonically
/// incremented, purely observational and never required for correctness.
pub struct ProgressCounter {
    ticks: u64,
}

impl ProgressCounter {
    /// Chunks reported complete so far.
    pub closed spec fn count(self) -> u64 {
        self.ticks
    }

    pub fn new() -> (c: ProgressCounter)
        ensures
            c.count() == 0,
    {
        ProgressCounter { ticks: 0 }
    }

    /// Progress signal: one more chunk has run to completion.
    pub fn on_chunk_complete(&mut self)
        requires
            old(self).count() < u64::MAX,
        ensures
            final(self).count() == old(self).count() + 1,
    {
        self.ticks = self.ticks + 1;
    }

    /// Read-only observation of the progress so far.
    pub fn read(&self) -> (n: u64)
        ensures
            n == self.count(),
    {
        self.ticks
    }
}

/// Validates a configuration and returns the exact total trial count
/// `chunks * trials_per_chunk`; `None` exactly when a count is zero or the
/// product does not fit in a machine word.
pub fn plan_total(chunks: u64, trials_per_chunk: u64) -> (t: Option<u64>)
    ensures
        t is Some <==> 1 <= chunks && 1 <= trials_per_chunk && chunks * trials_per_chunk
            <= u64::MAX,
        t matches Some(n) ==> n == chunks * trials_per_chunk,
{
    if chunks == 0 || trials_per_chunk == 0 {
        return None;
    }
    proof {
        lemma_mul_bound(
            chunks as int,
            trials_per_chunk as int,
            0xffff_ffff_ffff_ffff,
            0xffff_ffff_ffff_ffff,
        );
    }
    let prod: u128 = (chunks as u128) * (trials_per_chunk as u128);
    if prod > u64::MAX as u128 {
        None
    } else {
        Some(prod as u64)
    }
}

/// Runs all trials of one chunk sequentially against the chunk's own stream
/// and returns the chunk's partial count. The samples are random, so all that
/// holds of every outcome is the partial count's bound.
pub fn run_chunk(rng: &mut rand_xoshiro::Xoshiro256Plus, trials_per_chunk: u64, s: Strategy) -> (hits:
    u64)
    ensures
        hits <= trials_per_chunk,
{
    let mut hits: u64 = 0;
    let mut i: u64 = 0;
    while i < trials_per_chunk
        invariant
            hits <= i <= trials_per_chunk,
        decreases trials_per_chunk - i,
    {
        let t = sample_trial(rng);
        if eval_trial(&t, s) {
            hits = hits + 1;
        }
        i = i + 1;
    }
    hits
}

/// Executes the full estimation run: validates the configuration, partitions
/// the budget into `chunks` chunks of `trials_per_chunk` trials, runs every
/// chunk to completion on its own freshly seeded stream, folds the partial
/// counts into the aggregate, and ticks the progress counter once per chunk.
///
/// The returned trial count equals `chunks * trials_per_chunk` exactly, the
/// aggregate never exceeds it, and every chunk is reflected in the progress
/// count exactly once.
pub fn run_estimation(
    chunks: u64,
    trials_per_chunk: u64,
    s: Strategy,
    progress: &mut ProgressCounter,
) -> (out: Option<(u64, u64)>)
    requires
        old(progress).count() == 0,
    ensures
        out is Some <==> 1 <= chunks && 1 <= trials_per_chunk && chunks * trials_per_chunk
            <= u64::MAX,
        out matches Some(r) ==> {
            &&& r.1 == chunks * trials_per_chunk
            &&& r.0 <= r.1
            &&& final(progress).count() == chunks
        },
        out is None ==> final(progress).count() == 0,
{
    let total: u64 = match plan_total(chunks, trials_per_chunk) {
        None => { return None },
        Some(t) => t,
    };
    let mut agg: u64 = 0;
    let mut done: u64 = 0;
    while done < chunks
        invariant
            done <= chunks,
            total == chunks * trials_per_chunk,
            agg as int <= done * trials_per_chunk,
            progress.count() == done,
        decreases chunks - done,
    {
        let mut rng = seed_rng(fresh_seed());
        let h = run_chunk(&mut rng, trials_per_chunk, s);
        proof {
            assert(done * trials_per_chunk + trials_per_chunk == (done + 1)
                * trials_per_chunk) by (nonlinear_arith);
            assert((done + 1) * trials_per_chunk <= chunks * trials_per_chunk)
                by (nonlinear_arith)
                requires
                    done as int + 1 <= chunks as int,
            ;
        }
        agg = agg + h;
        done = done + 1;
        progress.on_chunk_complete();
    }
    Some((agg, total))
}

} // verus!
