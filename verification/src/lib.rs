//! Core simulation of a small 2D platformer: axis-aligned rectangle collision,
//! player physics with axis-separated collision resolution against static
//! platforms, patrolling enemies, win detection, a smoothed horizontal camera,
//! and a frame recorder that converts captured RGBA frames to RGB.
//!
//! All world-space quantities are fixed-point integers: one world unit is
//! `units::SCALE` sub-units, velocities are sub-units per second, and time
//! steps are milliseconds.  Rendering, input polling and file output are left
//! to the embedding program, which drives the simulation through plain values.

pub mod enemy;
pub mod geometry;
pub mod player;
pub mod recorder;
pub mod units;
pub mod world;
