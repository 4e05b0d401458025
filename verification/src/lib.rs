//! A 2D "particle-life" simulation core: typed particles repel at short
//! range and attract or repel at longer range according to a per-type-pair
//! interaction matrix. This crate verifies the physics: the pairwise force
//! law with its three distance regimes, the damped semi-implicit Euler
//! integration of velocity and position, and the elastic boundary
//! reflection. All quantities are fixed-point integers with `FIX` units per
//! simulation unit, so every step is exact integer arithmetic.

pub mod config;
pub mod force;
pub mod math;
pub mod particle;
pub mod sim;
pub mod rng;
