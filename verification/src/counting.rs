//! Trials, predicate selection, and order-insensitive count reduction.

use vstd::prelude::*;
use crate::geometry::Point;
use crate::linear::{spec_linear_hit, bisector_hits_nearest_linear};
use crate::quadratic::{spec_quad_nearest_hit, spec_quad_scan_hit, bisector_hits_nearest_quadratic,
    bisector_hits_scan_quadratic};

verus! {

/// One trial: a pair of independently sampled points of the unit square.
#[derive(Clone, Copy, PartialEq, Eq, Structural, Debug)]
pub struct Trial {
    pub p: Point,
    pub q: Point,
}

impl Trial {
    /// Both points lie in the unit square.
    pub open spec fn wf(self) -> bool {
        self.p.wf() && self.q.wf()
    }

    pub fn new(p: Point, q: Point) -> (t: Trial)
        requires
            p.wf(),
            q.wf(),
        ensures
            t.wf(),
            t.p == p,
            t.q == q,
    {
        Trial { p, q }
    }
}

/// The selectable bisector-predicate strategies.
#[derive(Clone, Copy, PartialEq, Eq, Structural, Debug)]
pub enum Strategy {
    /// Closed-form slope on the border nearest to the first point.
    NearestLinear,
    /// Quadratic roots on the border nearest to the first point.
    NearestQuadratic,
    /// Quadratic roots on all four borders in the fixed fallback order.
    ScanQuadratic,
}

/// Whether one trial counts as a hit under the chosen strategy.
pub open spec fn trial_hit(t: Trial, s: Strategy) -> bool {
    match s {
        Strategy::NearestLinear => spec_linear_hit(t.p, t.q),
        Strategy::NearestQuadratic => spec_quad_nearest_hit(t.p, t.q),
        Strategy::ScanQuadratic => spec_quad_scan_hit(t.p, t.q),
    }
}

/// Evaluates the chosen bisector predicate on one trial.
pub fn eval_trial(t: &Trial, s: Strategy) -> (r: bool)
    requires
        t.wf(),
    ensures
        r == trial_hit(*t, s),
{
    match s {
        Strategy::NearestLinear => bisector_hits_nearest_linear(&t.p, &t.q),
        Strategy::NearestQuadratic => bisector_hits_nearest_quadratic(&t.p, &t.q),
        Strategy::ScanQuadratic => bisector_hits_scan_quadratic(&t.p, &t.q),
    }
}

/// Number of hits in a trial sequence under the chosen strategy.
pub open spec fn hit_count(ts: Seq<Trial>, s: Strategy) -> int
    decreases ts.len(),
{
    if ts.len() == 0 {
        0
    } else {
        hit_count(ts.drop_last(), s) + if trial_hit(ts.last(), s) {
            1int
        } else {
            0int
        }
    }
}

/// A hit count is between zero and the number of trials.
pub proof fn lemma_hit_count_bounds(ts: Seq<Trial>, s: Strategy)
    ensures
        0 <= hit_count(ts, s) <= ts.len(),
    decreases ts.len(),
{
    if ts.len() > 0 {
        lemma_hit_count_bounds(ts.drop_last(), s);
    }
}

/// Splitting a trial sequence anywhere splits its hit count: counting two
/// chunks separately and adding the partial counts gives exactly the count of
/// one pass over the whole sequence.
pub proof fn lemma_hit_count_concat(s1: Seq<Trial>, s2: Seq<Trial>, s: Strategy)
    ensures
        hit_count(s1 + s2, s) == hit_count(s1, s) + hit_count(s2, s),
    decreases s2.len(),
{
    if s2.len() == 0 {
        assert(s1 + s2 =~= s1);
    } else {
        lemma_hit_count_concat(s1, s2.drop_last(), s);
        assert((s1 + s2).drop_last() =~= s1 + s2.drop_last());
        assert((s1 + s2).last() == s2.last());
    }
}

/// The reduction is order-insensitive: two chunks contribute the same
/// aggregate whichever finishes first.
pub proof fn lemma_hit_count_commutes(s1: Seq<Trial>, s2: Seq<Trial>, s: Strategy)
    ensures
        hit_count(s1 + s2, s) == hit_count(s2 + s1, s),
{
    lemma_hit_count_concat(s1, s2, s);
    lemma_hit_count_concat(s2, s1, s);
}

/// All chunks joined back into one sequence, in chunk order.
pub open spec fn flatten_chunks(cs: Seq<Seq<Trial>>) -> Seq<Trial>
    decreases cs.len(),
{
    if cs.len() == 0 {
        Seq::empty()
    } else {
        flatten_chunks(cs.drop_last()) + cs.last()
    }
}

/// The sum of the per-chunk hit counts.
pub open spec fn chunk_count_sum(cs: Seq<Seq<Trial>>, s: Strategy) -> int
    decreases cs.len(),
{
    if cs.len() == 0 {
        0
    } else {
        chunk_count_sum(cs.drop_last(), s) + hit_count(cs.last(), s)
    }
}

/// Reduction over chunks equals one sequential count: partitioning a trial
/// budget into any number of chunks and summing the partial counts yields
/// exactly the aggregate of a single pass over all trials.
pub proof fn lemma_chunked_reduction(cs: Seq<Seq<Trial>>, s: Strategy)
    ensures
        hit_count(flatten_chunks(cs), s) == chunk_count_sum(cs, s),
    decreases cs.len(),
{
    if cs.len() > 0 {
        lemma_chunked_reduction(cs.drop_last(), s);
        lemma_hit_count_concat(flatten_chunks(cs.drop_last()), cs.last(), s);
    }
}

/// Counts the hits of a given trial sequence, exactly.
pub fn count_hits(ts: &Vec<Trial>, s: Strategy) -> (n: u64)
    requires
        forall|j: int| 0 <= j < ts@.len() ==> (#[trigger] ts@[j]).wf(),
    ensures
        n as int == hit_count(ts@, s),
{
    let mut n: u64 = 0;
    let mut i: usize = 0;
    while i < ts.len()
        invariant
            0 <= i <= ts@.len(),
            n <= i,
            n as int == hit_count(ts@.take(i as int), s),
            forall|j: int| 0 <= j < ts@.len() ==> (#[trigger] ts@[j]).wf(),
        decreases ts@.len() - i,
    {
        let t = ts[i];
        let hit = eval_trial(&t, s);
        proof {
            assert(ts@.take(i as int + 1).drop_last() =~= ts@.take(i as int));
            assert(ts@.take(i as int + 1).last() == ts@[i as int]);
        }
        if hit {
            n = n + 1;
        }
        i = i + 1;
    }
    proof {
        assert(ts@.take(ts@.len() as int) =~= ts@);
    }
    n
}

/// Sum of the partial counts handed back by the chunks.
pub open spec fn sum_counts(xs: Seq<u64>) -> int
    decreases xs.len(),
{
    if xs.len() == 0 {
        0
    } else {
        sum_counts(xs.drop_last()) + xs.last()
    }
}

/// A prefix of the partial counts never sums to more than all of them.
pub proof fn lemma_sum_counts_take_le(xs: Seq<u64>, i: int)
    requires
        0 <= i <= xs.len(),
    ensures
        sum_counts(xs.take(i)) <= sum_counts(xs),
    decreases xs.len() - i,
{
    if i < xs.len() {
        assert(xs.take(i + 1).drop_last() =~= xs.take(i));
        assert(xs.take(i + 1).last() == xs[i]);
        lemma_sum_counts_take_le(xs, i + 1);
    } else {
        assert(xs.take(i) =~= xs);
    }
}

/// Folds the partial counts of all chunks into the final aggregate; `None`
/// exactly when the true sum does not fit in a machine word.
pub fn reduce_counts(parts: &Vec<u64>) -> (total: Option<u64>)
    ensures
        total matches Some(t) ==> t as int == sum_counts(parts@),
        total is Some <==> sum_counts(parts@) <= u64::MAX,
{
    let mut acc: u64 = 0;
    let mut i: usize = 0;
    while i < parts.len()
        invariant
            0 <= i <= parts@.len(),
            acc as int == sum_counts(parts@.take(i as int)),
        decreases parts@.len() - i,
    {
        let part = parts[i];
        proof {
            assert(parts@.take(i as int + 1).drop_last() =~= parts@.take(i as int));
            assert(parts@.take(i as int + 1).last() == parts@[i as int]);
        }
        if part > u64::MAX - acc {
            proof {
                lemma_sum_counts_take_le(parts@, i as int + 1);
            }
            return None;
        }
        acc = acc + part;
        i = i + 1;
    }
    proof {
        assert(parts@.take(parts@.len() as int) =~= parts@);
    }
    Some(acc)
}

} // verus!
