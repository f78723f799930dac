//! Core logic of a small 2D platformer prototype: a sprite-animation
//! frame driver, a periodically firing pickup spawner with a randomized
//! re-arm delay, and a collision resolver that collects pickups on
//! player contact. Time is measured in whole milliseconds; the host
//! engine's rendering, input and physics stay outside this crate.

pub mod animation;
pub mod player;
mod rng;
pub mod spawner;
pub mod timer;
pub mod world;
