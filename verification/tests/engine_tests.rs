use rand::SeedableRng;
use rand_xoshiro::Xoshiro256Plus;
use squaremc::geometry::{Point, SCALE};
use squaremc::counting::{Trial, Strategy, count_hits, reduce_counts};
use squaremc::engine::{ProgressCounter, plan_total, run_chunk, run_estimation};
use squaremc::sampler::{sample_point, sample_trial, sample_trials};

fn trial(x1: i64, y1: i64, x2: i64, y2: i64) -> Trial {
    Trial::new(Point::new(x1, y1), Point::new(x2, y2))
}

fn mixed_trials() -> Vec<Trial> {
    vec![
        trial(500_000, 500_000, 500_000, 900_000),  // hit
        trial(0, 0, SCALE, SCALE),                  // hit
        trial(123_456, 654_321, 123_456, 654_321),  // coincident: miss
        trial(200_000, 500_000, 800_000, 500_000),  // degenerate slope: miss
        trial(200_000, 100_000, 800_000, 500_000),  // hit
        trial(300_000, 100_000, 310_000, 900_000),  // bisector leaves the square: miss
    ]
}

#[test]
fn count_hits_exact_value() {
    let ts = mixed_trials();
    assert_eq!(count_hits(&ts, Strategy::NearestLinear), 3);
}

#[test]
fn count_hits_empty_is_zero() {
    let ts: Vec<Trial> = Vec::new();
    assert_eq!(count_hits(&ts, Strategy::NearestLinear), 0);
    assert_eq!(count_hits(&ts, Strategy::NearestQuadratic), 0);
    assert_eq!(count_hits(&ts, Strategy::ScanQuadratic), 0);
}

#[test]
fn chunked_counts_match_single_pass() {
    // splitting the same trials into one chunk or several and summing the
    // partial counts yields the same aggregate
    let ts = mixed_trials();
    for s in [Strategy::NearestLinear, Strategy::NearestQuadratic, Strategy::ScanQuadratic] {
        let whole = count_hits(&ts, s);
        for cut in 0..=ts.len() {
            let first: Vec<Trial> = ts[..cut].to_vec();
            let second: Vec<Trial> = ts[cut..].to_vec();
            let parts = vec![count_hits(&first, s), count_hits(&second, s)];
            assert_eq!(reduce_counts(&parts), Some(whole));
        }
        let singles: Vec<u64> = ts.iter().map(|t| count_hits(&vec![*t], s)).collect();
        assert_eq!(reduce_counts(&singles), Some(whole));
    }
}

#[test]
fn reduce_counts_sums_exactly() {
    assert_eq!(reduce_counts(&vec![1, 2, 3]), Some(6));
    assert_eq!(reduce_counts(&Vec::new()), Some(0));
    assert_eq!(reduce_counts(&vec![u64::MAX, 0]), Some(u64::MAX));
}

#[test]
fn reduce_counts_detects_overflow() {
    assert_eq!(reduce_counts(&vec![u64::MAX, 1]), None);
    assert_eq!(reduce_counts(&vec![u64::MAX / 2 + 1, u64::MAX / 2 + 1]), None);
}

#[test]
fn plan_total_exact_product() {
    assert_eq!(plan_total(3, 7), Some(21));
    assert_eq!(plan_total(1, 1), Some(1));
    assert_eq!(plan_total(u64::MAX, 1), Some(u64::MAX));
}

#[test]
fn plan_total_rejects_bad_configuration() {
    assert_eq!(plan_total(0, 5), None);
    assert_eq!(plan_total(5, 0), None);
    assert_eq!(plan_total(0, 0), None);
    assert_eq!(plan_total(u64::MAX, 2), None);
}

#[test]
fn run_estimation_total_is_exact() {
    // the returned trial count equals chunks * trials_per_chunk exactly
    for (chunks, tpc) in [(1u64, 40u64), (4, 10), (5, 8), (13, 3)] {
        let mut progress = ProgressCounter::new();
        let (agg, total) =
            run_estimation(chunks, tpc, Strategy::NearestLinear, &mut progress).unwrap();
        assert_eq!(total, chunks * tpc);
        assert!(agg <= total);
        assert_eq!(progress.read(), chunks);
    }
}

#[test]
fn run_estimation_rejects_zero_counts() {
    let mut progress = ProgressCounter::new();
    assert_eq!(run_estimation(0, 10, Strategy::ScanQuadratic, &mut progress), None);
    assert_eq!(progress.read(), 0);
    assert_eq!(run_estimation(10, 0, Strategy::ScanQuadratic, &mut progress), None);
    assert_eq!(progress.read(), 0);
}

#[test]
fn run_estimation_all_strategies() {
    for s in [Strategy::NearestLinear, Strategy::NearestQuadratic, Strategy::ScanQuadratic] {
        let mut progress = ProgressCounter::new();
        let (agg, total) = run_estimation(8, 50, s, &mut progress).unwrap();
        assert_eq!(total, 400);
        assert!(agg <= total);
        assert_eq!(progress.read(), 8);
    }
}

#[test]
fn run_chunk_count_bounded() {
    let mut rng = Xoshiro256Plus::seed_from_u64(42);
    let hits = run_chunk(&mut rng, 100, Strategy::NearestLinear);
    assert!(hits <= 100);
    let hits = run_chunk(&mut rng, 0, Strategy::ScanQuadratic);
    assert_eq!(hits, 0);
}

#[test]
fn same_seed_same_chunk_outcome() {
    // a chunk's stream is a function of its seed alone
    let mut a = Xoshiro256Plus::seed_from_u64(1234);
    let mut b = Xoshiro256Plus::seed_from_u64(1234);
    let ha = run_chunk(&mut a, 500, Strategy::ScanQuadratic);
    let hb = run_chunk(&mut b, 500, Strategy::ScanQuadratic);
    assert_eq!(ha, hb);
    let ta = sample_trials(&mut a, 20);
    let tb = sample_trials(&mut b, 20);
    assert_eq!(ta, tb);
}

#[test]
fn sampled_coordinates_stay_in_unit_square() {
    let mut rng = Xoshiro256Plus::seed_from_u64(7);
    for _ in 0..200 {
        let p = sample_point(&mut rng);
        assert!(0 <= p.x && p.x <= SCALE);
        assert!(0 <= p.y && p.y <= SCALE);
    }
    let t = sample_trial(&mut rng);
    assert!(0 <= t.p.x && t.p.x <= SCALE);
    assert!(0 <= t.q.y && t.q.y <= SCALE);
}

#[test]
fn sample_trials_length_and_range() {
    let mut rng = Xoshiro256Plus::seed_from_u64(99);
    let ts = sample_trials(&mut rng, 250);
    assert_eq!(ts.len(), 250);
    for t in ts.iter() {
        for c in [t.p.x, t.p.y, t.q.x, t.q.y] {
            assert!(0 <= c && c <= SCALE);
        }
    }
}

#[test]
fn progress_counter_ticks_monotonically() {
    let mut progress = ProgressCounter::new();
    assert_eq!(progress.read(), 0);
    progress.on_chunk_complete();
    assert_eq!(progress.read(), 1);
    progress.on_chunk_complete();
    progress.on_chunk_complete();
    assert_eq!(progress.read(), 3);
}
