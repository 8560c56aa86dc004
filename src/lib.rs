//! Movement, wall collision and tint changes of a sprite that bounces
//! inside a resizable viewport, one frame at a time.
//!
//! Lengths and coordinates are integers in thousandths of a world unit;
//! camera scales and display scale factors are integers in thousandths too
//! (1000 stands for a factor of one).

pub mod collision;
pub mod color;
pub mod controller;
pub mod geometry;
pub mod motion;
