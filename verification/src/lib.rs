//! Monte Carlo estimation over the closed unit square.
//!
//! Coordinates are modelled as exact fixed-point fractions (`raw / SCALE`),
//! so every geometric decision is made with exact integer arithmetic and can
//! be verified. The geometric predicates decide whether the perpendicular
//! bisector of a random chord meets the square's boundary; the engine
//! partitions a trial budget into chunks, samples each chunk from its own
//! random stream, and reduces the per-chunk counts into one aggregate.

pub mod geometry;
pub mod linear;
pub mod quadratic;
pub mod transform;
pub mod counting;
pub mod sampler;
pub mod engine;
pub mod laws;
