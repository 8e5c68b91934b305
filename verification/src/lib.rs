//! Monte Carlo estimation of pi.
//!
//! Random points are drawn in the unit square and classified as inside or
//! outside the unit quarter circle; the fraction inside approaches pi / 4.
//! Coordinates are modelled in fixed point on a grid of `SCALE + 1` steps per
//! unit, so the classification, the chunk partitioning and the reduction are
//! all plain integer logic with exact contracts. The pseudo-random stream
//! itself comes from an outside generator and is the only part taken on
//! trust.

pub mod chunks;
pub mod counting;
pub mod engine;
pub mod source;
pub mod trial;
