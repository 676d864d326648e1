//! Triples of scalars: positions, directions, colours.
use vstd::prelude::*;
use crate::scalar::Scalar;

verus! {

/// Three scalars. Used for points, directions, normals and RGB colours.
#[derive(Clone, Copy, Debug, PartialEq, Eq, Structural)]
pub struct Vec3 {
    pub x: Scalar,
    pub y: Scalar,
    pub z: Scalar,
}

/// A point in space.
pub type Position = Vec3;

/// A surface normal. Expected to have unit length; this is not enforced.
pub type Normal = Vec3;

impl Vec3 {
    /// Some component is NaN.
    pub open spec fn has_nan(self) -> bool {
        self.x.nan() || self.y.nan() || self.z.nan()
    }

    pub open spec fn splat_spec(s: Scalar) -> Vec3 {
        Vec3 { x: s, y: s, z: s }
    }

    pub open spec fn zero_spec() -> Vec3 {
        Vec3::splat_spec(Scalar::zero())
    }

    /// Componentwise [`Scalar::min_spec`].
    pub open spec fn min_spec(self, other: Vec3) -> Vec3 {
        Vec3 {
            x: self.x.min_spec(other.x),
            y: self.y.min_spec(other.y),
            z: self.z.min_spec(other.z),
        }
    }

    /// Componentwise [`Scalar::max_spec`].
    pub open spec fn max_spec(self, other: Vec3) -> Vec3 {
        Vec3 {
            x: self.x.max_spec(other.x),
            y: self.y.max_spec(other.y),
            z: self.z.max_spec(other.z),
        }
    }

    /// The smallest component.
    pub open spec fn min_element_spec(self) -> Scalar {
        self.x.min_spec(self.y.min_spec(self.z))
    }

    /// The largest component.
    pub open spec fn max_element_spec(self) -> Scalar {
        self.x.max_spec(self.y.max_spec(self.z))
    }

    /// Every component of `self` is at most the matching one of `other`.
    pub open spec fn le_spec(self, other: Vec3) -> bool {
        self.x.le_spec(other.x) && self.y.le_spec(other.y) && self.z.le_spec(other.z)
    }

    /// The component along axis `0`, `1` or `2`.
    pub open spec fn component(self, axis: int) -> Scalar {
        if axis == 0 {
            self.x
        } else if axis == 1 {
            self.y
        } else {
            self.z
        }
    }

    /// Every component equals zero in value.
    pub open spec fn is_zero_spec(self) -> bool {
        self.x.magnitude() == 0 && self.y.magnitude() == 0 && self.z.magnitude() == 0
    }

    pub fn new(x: Scalar, y: Scalar, z: Scalar) -> (v: Vec3)
        ensures
            v == (Vec3 { x, y, z }),
    {
        Vec3 { x, y, z }
    }

    /// The vector of three given bit patterns.
    pub fn from_bits(x: u32, y: u32, z: u32) -> (v: Vec3)
        ensures
            v.x.bits == x,
            v.y.bits == y,
            v.z.bits == z,
    {
        Vec3 { x: Scalar::from_bits(x), y: Scalar::from_bits(y), z: Scalar::from_bits(z) }
    }

    /// The bit patterns of the three components.
    pub fn to_bits(self) -> (b: (u32, u32, u32))
        ensures
            b == (self.x.bits, self.y.bits, self.z.bits),
    {
        (self.x.bits, self.y.bits, self.z.bits)
    }

    #[verifier::when_used_as_spec(splat_spec)]
    pub fn splat(s: Scalar) -> (v: Vec3)
        ensures
            v == Vec3::splat_spec(s),
    {
        Vec3 { x: s, y: s, z: s }
    }

    #[verifier::when_used_as_spec(zero_spec)]
    pub fn zero() -> (v: Vec3)
        ensures
            v == Vec3::zero_spec(),
    {
        Vec3::splat(Scalar::zero())
    }

    pub fn min(self, other: Vec3) -> (m: Vec3)
        ensures
            m == self.min_spec(other),
    {
        Vec3 { x: self.x.min(other.x), y: self.y.min(other.y), z: self.z.min(other.z) }
    }

    pub fn max(self, other: Vec3) -> (m: Vec3)
        ensures
            m == self.max_spec(other),
    {
        Vec3 { x: self.x.max(other.x), y: self.y.max(other.y), z: self.z.max(other.z) }
    }

    pub fn min_element(self) -> (m: Scalar)
        ensures
            m == self.min_element_spec(),
    {
        self.x.min(self.y.min(self.z))
    }

    pub fn max_element(self) -> (m: Scalar)
        ensures
            m == self.max_element_spec(),
    {
        self.x.max(self.y.max(self.z))
    }

    pub fn is_zero(self) -> (r: bool)
        ensures
            r == self.is_zero_spec(),
    {
        self.x.is_zero() && self.y.is_zero() && self.z.is_zero()
    }
}

} // verus!
