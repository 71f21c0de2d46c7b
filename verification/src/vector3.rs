//! Three-component vectors and points.
//!
//! Only the operations that need no arithmetic live here: building a vector,
//! reversing it, and the tests that sampling and scattering make on one.

use vstd::prelude::*;
use crate::color::Color;
use crate::error::Error;
use crate::scalar::Scalar;

verus! {

/// Bit pattern of `1e-8`, below which a component counts as zero.
pub const NEAR_ZERO_BITS: u64 = 0x3e45_798e_e230_8c3a;

/// Bit pattern of `1e-160`, the shortest vector that is still normalised.
pub const SHORTEST_BITS: u64 = 0x1eb6_7e9c_127b_6e74;

/// A vector of three numbers. Its arithmetic is left to the caller.
#[derive(Clone, Copy, Debug)]
pub struct Vector3 {
    pub x: Scalar,
    pub y: Scalar,
    pub z: Scalar,
}

/// A position in space.
pub type Point3 = Vector3;

impl Vector3 {
    /// The vector with every component's sign flipped.
    pub open spec fn spec_neg(&self) -> Vector3 {
        Vector3 { x: self.x.spec_neg(), y: self.y.spec_neg(), z: self.z.spec_neg() }
    }

    /// Whether every component is closer to zero than `1e-8`.
    pub open spec fn spec_near_zero(&self) -> bool {
        let s = Scalar { bits: NEAR_ZERO_BITS };
        self.x.spec_abs().spec_lt(s) && self.y.spec_abs().spec_lt(s) && self.z.spec_abs().spec_lt(s)
    }

    /// Whether a length lies in `(1e-160, 1]`.
    pub open spec fn spec_in_unit_ball(length: Scalar) -> bool {
        !length.spec_le(Scalar { bits: SHORTEST_BITS }) && length.spec_le(Scalar::spec_one())
    }

    /// Whether a squared length is below `1`.
    pub open spec fn spec_in_unit_disk(length_squared: Scalar) -> bool {
        length_squared.spec_lt(Scalar::spec_one())
    }

    /// The sample itself where it leans along the normal, its reverse elsewhere.
    pub open spec fn spec_random_in_hemisphere(sample: Vector3, alignment: Scalar) -> Vector3 {
        if alignment.spec_gt(Scalar::spec_zero()) {
            sample
        } else {
            sample.spec_neg()
        }
    }

    /// The vector with the given components.
    pub fn new(x: Scalar, y: Scalar, z: Scalar) -> (v: Vector3)
        ensures
            v.x == x,
            v.y == y,
            v.z == z,
    {
        Vector3 { x, y, z }
    }

    /// The vector of the same length that points the other way.
    #[verifier::when_used_as_spec(spec_neg)]
    pub fn neg(&self) -> (v: Vector3)
        ensures
            v == self.spec_neg(),
    {
        Vector3 { x: self.x.neg(), y: self.y.neg(), z: self.z.neg() }
    }

    /// Whether the vector is too short to serve as a direction.
    #[verifier::when_used_as_spec(spec_near_zero)]
    pub fn near_zero(&self) -> (b: bool)
        ensures
            b == self.spec_near_zero(),
    {
        let s = Scalar::from_bits(NEAR_ZERO_BITS);
        self.x.abs().lt(s) && self.y.abs().lt(s) && self.z.abs().lt(s)
    }

    /// The acceptance test of rejection sampling on the unit sphere.
    ///
    /// A point drawn from the cube `[-1, 1)^3` is kept, and then normalised,
    /// when its length is at most `1` and above `1e-160`, so that the division
    /// by the length stays finite. A NaN length is rejected.
    #[verifier::when_used_as_spec(spec_in_unit_ball)]
    pub fn in_unit_ball(length: Scalar) -> (keep: bool)
        ensures
            keep == Vector3::spec_in_unit_ball(length),
    {
        if length.le(Scalar::from_bits(SHORTEST_BITS)) {
            false
        } else {
            length.le(Scalar::one())
        }
    }

    /// The acceptance test of rejection sampling on the unit disk.
    ///
    /// A point drawn from the square `[-1, 1)^2` is kept when its squared
    /// length is below `1`. A NaN is rejected.
    #[verifier::when_used_as_spec(spec_in_unit_disk)]
    pub fn in_unit_disk(length_squared: Scalar) -> (keep: bool)
        ensures
            keep == Vector3::spec_in_unit_disk(length_squared),
    {
        length_squared.lt(Scalar::one())
    }

    /// Turns a unit vector into the hemisphere around a normal.
    ///
    /// `alignment` is the dot product of `sample` and the normal.
    pub fn random_in_hemisphere(sample: Vector3, alignment: Scalar) -> (v: Vector3)
        ensures
            v == Vector3::spec_random_in_hemisphere(sample, alignment),
    {
        if alignment.gt(Scalar::zero()) {
            sample
        } else {
            sample.neg()
        }
    }

    /// The colour whose channels are the components, where they are in
    /// range.
    pub fn to_color(self) -> (c: Result<Color, Error>)
        ensures
            Color::built_from(self.x, self.y, self.z, c),
    {
        Color::new(self.x, self.y, self.z)
    }
}

} // verus!
