//! Steering core for a 2D herding simulation.
//!
//! Every tick, each mobile actor gathers a set of independent directional
//! "influences" (player input, flocking alignment / cohesion / separation,
//! flee-from-threat, idle grazing, inertia), and a composer blends them into
//! a single velocity under a two-stage clamping policy: the cooperative
//! behaviours share a unit budget, while the flee response may exceed it up
//! to its own configurable ceiling.
//!
//! All quantities are fixed-point: an `i64` holds a value in steps of
//! `1 / SCALE` of a world unit, so the arithmetic is exact and every bound
//! here is machine-checked.

pub mod animation;
pub mod configuration;
pub mod fixed;
pub mod flocking;
pub mod food;
pub mod game_rules;
pub mod grass;
pub mod levels;
pub mod player;
pub mod motion;
pub mod sheep;
pub mod tick;
pub mod zone;
pub mod vec3;

