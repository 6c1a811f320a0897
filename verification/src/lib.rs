//! The discrete core of a chain of point masses strung between two fixed
//! anchors: the state of the chain with its invariants, and the order in which
//! one displayed frame integrates the particles and resolves the distance
//! constraints. Coordinates are carried as `glam::Vec2` values and never
//! computed with here.

pub mod chain;
pub mod error;
pub mod schedule;
pub mod vector;

pub use chain::{Chain, ChainState};
pub use error::{ConfigError, StateError};
pub use schedule::{constraint_in_sweep, op_in_slot, Constraint, Op, Progress, Schedule};
pub use vector::{bits_of, vec2_bits};
