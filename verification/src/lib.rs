//! Targeting engine for a turn-based underwater scanning game.
//!
//! The library keeps persistent registries of creatures and drones that are
//! reconciled each turn from sparse snapshots, and decides each drone's
//! destination: either by direct nearest-unscanned search over known creature
//! positions, or by progressive radar-quadrant narrowing when positions are
//! hidden.

pub mod geom;
pub mod creature;
pub mod drone;
pub mod targeting;
