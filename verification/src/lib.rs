//! Core of a microbenchmark harness for low-level numeric primitives.
//!
//! The library owns the deterministic parts of the harness: seeded
//! pseudo-random batch generation, cache-tier-aware sizing of input batches,
//! the orientation bit-pattern model with its derived input distributions,
//! and the parameter grids that drive a measurement session. Timing itself,
//! floating-point candidate kernels and the environment probe live outside,
//! in the unverified binary around this crate.

pub mod batch;
pub mod copy;
pub mod orient;
pub mod plan;
pub mod rng;
pub mod sizing;
pub mod transform;
