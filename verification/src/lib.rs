//! A tick-driven, grid-aligned snake simulation.
//!
//! The crate holds the rules of the game and nothing of its presentation: a
//! single actor that advances one cell per tick, the decaying trail it leaves
//! behind, the food it grows on, the projectiles it can fire, and the clock
//! that paces it and speeds up with every meal.  Every executable function
//! carries a contract over a mathematical model of the state, and what holds
//! across several operations is proved in [`laws`].

pub mod actor;
pub mod clock;
pub mod controller;
pub mod food;
pub mod geometry;
pub mod laws;
pub mod projectile;
pub mod scoring;
pub mod simulation;
pub mod state;
mod random;
pub mod trail;

