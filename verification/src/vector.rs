//! The vector type that the chain carries, and what is known of its values.

use glam::Vec2;
use vstd::prelude::*;

verus! {

/// `glam::Vec2`, a pair of single-precision coordinates. Its values are
/// carried through and copied, never looked into.
#[verifier::external_type_specification]
#[verifier::external_body]
pub struct ExVec2(glam::Vec2);

/// The IEEE 754 bit patterns of the `x` and the `y` coordinate of a vector, as
/// `to_bits` gives them for each of the two fields.
pub uninterp spec fn vec2_bits(v: Vec2) -> (u32, u32);

/// The bit patterns of every vector of a sequence, in order.
pub open spec fn bits_of(s: Seq<Vec2>) -> Seq<(u32, u32)> {
    s.map_values(|v: Vec2| vec2_bits(v))
}

/// Trusted: `glam::Vec2::ZERO`. The constant holds positive zero in both
/// coordinates, whose bit pattern is all zeroes.
#[verifier::external_body]
pub(crate) fn zero_vector() -> (z: Vec2)
    ensures
        vec2_bits(z) == (0u32, 0u32),
{
    Vec2::ZERO
}

} // verus!
