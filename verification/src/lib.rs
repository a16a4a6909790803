//! A gravitational N-body simulation core on fixed-point integer
//! coordinates.
//!
//! Positions, velocities and accelerations are carried in micro-units
//! (1_000_000 per world unit), masses in milli-units. All arithmetic
//! saturates at fixed world bounds, so every operation is total and every
//! result is pinned exactly by the contracts. Scenario generation draws
//! its randomness behind a small trusted boundary; everything the
//! simulation then does with a sample is verified for every value the
//! boundary can return.

pub mod gravity;
pub mod laws;
pub mod leapfrog;
pub mod num;
pub mod particle;
pub mod rng;
pub mod sim;
pub mod trig;
