//! Frame-scoped rendering of flat rectangles and ellipses.
//!
//! Every quantity is held exactly: pixel-space scalars are fixed-point
//! numbers, and normalized device coordinates are fractions of integers.
//! The host turns the draw commands that this crate builds into work for a
//! graphics device.

pub mod compass;
pub mod fixed;
pub mod geometry;
pub mod mapper;
pub mod render;
pub mod shader;
