//! An evolutionary ecosystem simulation on a bounded 2D plane.
//!
//! Mobile agents carry a heritable trait vector, sense their surroundings,
//! hunt, feed, flee, fight and reproduce; stationary resources regenerate
//! energy. All quantities are fixed-point integers in thousandths
//! (milli-units), so every tick is a pure function of the previous state and
//! the random seed: runs are reproducible, the parallel and sequential paths
//! agree, and the population-control, clamping and spatial-index guarantees
//! are proved rather than sampled.

pub mod agent;
pub mod ecs;
pub mod genes;
pub mod grid;
pub mod num;
pub mod pool;
pub mod resource;
pub mod rng;
pub mod simulation;
pub mod simulation_core;
