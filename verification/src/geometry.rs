//! Numbers and shapes that the game rules carry but do not compute with.

use vstd::prelude::*;

verus! {

/// A single-precision number, held as its bit pattern.
///
/// The rules in this crate move numbers around, pick between them and hand them to the host; the
/// host does the arithmetic and the comparisons.
#[derive(Clone, Copy, Debug, PartialEq, Eq, Structural, Hash)]
pub struct Scalar {
    pub bits: u32,
}

/// A point or a direction in the plane.
#[derive(Clone, Copy, Debug, PartialEq, Eq, Structural, Hash)]
pub struct Vec2 {
    pub x: Scalar,
    pub y: Scalar,
}

/// An axis-aligned rectangle.
#[derive(Clone, Copy, Debug, PartialEq, Eq, Structural, Hash)]
pub struct Rect {
    pub min: Vec2,
    pub max: Vec2,
}

/// The smallest non-rotated box around a shape, as the collision engine reports it.
#[derive(Clone, Copy, Debug, PartialEq, Eq, Structural, Hash)]
pub struct Aabb {
    pub mins: Vec2,
    pub maxs: Vec2,
}

impl Scalar {
    /// Zero, whose bits are all clear.
    pub open spec fn spec_zero() -> Scalar {
        Scalar { bits: 0 }
    }

    /// The number zero.
    #[verifier::when_used_as_spec(spec_zero)]
    pub fn zero() -> (number: Scalar)
        ensures
            number == Scalar::spec_zero(),
    {
        Scalar { bits: 0 }
    }
}

impl Default for Scalar {
    fn default() -> (number: Scalar)
        ensures
            number == Scalar::zero(),
    {
        Scalar::zero()
    }
}

impl Default for Vec2 {
    fn default() -> (v: Vec2)
        ensures
            v.x == Scalar::zero(),
            v.y == Scalar::zero(),
    {
        Vec2 { x: Scalar::zero(), y: Scalar::zero() }
    }
}

/// Zero is the number whose bits are all clear.
pub proof fn law_zero()
    ensures
        Scalar::zero().bits == 0,
{
}

} // verus!
