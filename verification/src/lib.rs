//! A small arcade world: a player sprite dodges obstacle sprites that bounce
//! inside a fixed window. The library holds the whole per-frame logic —
//! input-driven player movement, velocity-driven obstacle movement with wall
//! reflection, and axis-aligned bounding-box collision detection — over
//! fixed-point integer coordinates, with a contract on every step.
//!
//! Units: positions are measured in subpixels (thousandths of a pixel),
//! velocities in subpixels per millisecond, which is numerically the same as
//! pixels per second. Time advances in milliseconds.

pub mod game;
pub mod geometry;
