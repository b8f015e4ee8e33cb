//! Simulation core of a small 2D platformer: a seeded level generator,
//! fruit placement, player physics with box collisions, and the level
//! progress controller.
//!
//! All geometry is fixed-point: one world unit is [`units::SCALE`] sub-units,
//! held in `i64`. Time steps are whole microseconds.

pub mod units;
pub mod rng;
pub mod platform;
pub mod generator;
pub mod fruit;
pub mod physics;
pub mod controller;
