//! A point-mass simulator under uniform gravity.
//!
//! Lengths are held in micrometres, velocities in micrometres per second and
//! accelerations in micrometres per second squared, all as `i64`. Time steps
//! are exact fractions of a second.
use vstd::prelude::*;

pub mod vector;
pub mod body;
pub mod physics;
pub mod universe;
pub mod laws;

pub use vector::Vec3;
pub use body::{Body, Color};
pub use physics::TimeStep;
pub use universe::{DrawCommand, Position, Universe};
