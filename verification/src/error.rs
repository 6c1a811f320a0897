//! What the library refuses.

use vstd::prelude::*;

verus! {

/// Why a chain, or the schedule of its frames, cannot be set up.
#[derive(Clone, Copy, Debug, PartialEq, Eq)]
pub enum ConfigError {
    /// The chain has no particle.
    EmptyChain,
}

/// Why new positions and velocities are not taken over.
#[derive(Clone, Copy, Debug, PartialEq, Eq)]
pub enum StateError {
    /// There is not one position and one velocity for every particle.
    LengthMismatch,
}

} // verus!
