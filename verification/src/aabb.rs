//! Axis-aligned bounding boxes and the slab test.
use vstd::prelude::*;
use crate::scalar::Scalar;
use crate::triangle::Triangle;
use crate::vec3::{Position, Vec3};

verus! {

/// The distances along a ray at which it crosses the six planes of a box:
/// with `inv = 1 / D` componentwise (infinite where a component of `D` is
/// zero), `t0 = (min - O) * inv` and `t1 = (max - O) * inv`.
#[derive(Debug, Clone, Copy, PartialEq, Eq, Structural)]
pub struct Slabs {
    pub t0: Vec3,
    pub t1: Vec3,
}

impl Slabs {
    /// Where the ray has entered all three slabs: the largest of the three
    /// nearer crossings.
    pub open spec fn entry(self) -> Scalar {
        self.t0.min_spec(self.t1).max_element_spec()
    }

    /// Where the ray leaves the first of the three slabs: the smallest of
    /// the three farther crossings.
    pub open spec fn exit(self) -> Scalar {
        self.t0.max_spec(self.t1).min_element_spec()
    }

    /// The ray is inside all three slabs somewhere between `t_min` and
    /// `t_max`: `max(t_min, entry) <= min(t_max, exit)`.
    pub open spec fn overlap(self, t_min: Scalar, t_max: Scalar) -> bool {
        t_min.max_spec(self.entry()).le_spec(t_max.min_spec(self.exit()))
    }
}

/// A box with faces parallel to the coordinate planes, given by its two
/// extreme corners.
#[derive(Debug, Clone, Copy, PartialEq, Eq, Structural)]
pub struct BoundingBox {
    min: Vec3,
    max: Vec3,
}

impl BoundingBox {
    /// The two corners, smallest coordinates first.
    pub closed spec fn corners(self) -> (Vec3, Vec3) {
        (self.min, self.max)
    }

    /// The corners of the box that encloses nothing: every lower bound is
    /// `+inf`, every upper bound `-inf`.
    pub open spec fn empty_corners() -> (Vec3, Vec3) {
        (Vec3::splat(Scalar::infinity()), Vec3::splat(Scalar::neg_infinity()))
    }

    /// The corners after the box has been widened to hold `triangle`.
    pub open spec fn grown(corners: (Vec3, Vec3), triangle: Triangle) -> (Vec3, Vec3) {
        (corners.0.min_spec(triangle.min_spec()), corners.1.max_spec(triangle.max_spec()))
    }

    /// The point lies inside the box or on its faces.
    pub open spec fn contains(self, p: Position) -> bool {
        self.corners().0.le_spec(p) && p.le_spec(self.corners().1)
    }

    pub fn new(min: Vec3, max: Vec3) -> (b: BoundingBox)
        ensures
            b.corners() == (min, max),
    {
        BoundingBox { min, max }
    }

    /// The box that encloses nothing.
    pub fn empty() -> (b: BoundingBox)
        ensures
            b.corners() == BoundingBox::empty_corners(),
    {
        BoundingBox { min: Vec3::splat(Scalar::infinity()), max: Vec3::splat(Scalar::neg_infinity()) }
    }

    /// This box, widened to hold the three corners of `triangle`.
    pub fn grow(self, triangle: &Triangle) -> (b: BoundingBox)
        ensures
            b.corners() == BoundingBox::grown(self.corners(), *triangle),
    {
        BoundingBox { min: self.min.min(triangle.min()), max: self.max.max(triangle.max()) }
    }

    /// The slab test: whether a ray passes through the box between `t_min`
    /// and `t_max`, given the distances at which it crosses the planes of
    /// this box. Touching counts: the comparison is not strict.
    ///
    /// This is a culling test and yields no hit point. A crossing that is
    /// NaN (the origin lies in a plane that the ray runs along) is passed
    /// over in favour of the other operand.
    pub fn intersect(&self, slabs: &Slabs, t_min: Scalar, t_max: Scalar) -> (r: bool)
        ensures
            r == slabs.overlap(t_min, t_max),
    {
        let t_small = slabs.t0.min(slabs.t1);
        let t_big = slabs.t0.max(slabs.t1);
        let t_min = t_min.max(t_small.max_element());
        let t_max = t_max.min(t_big.min_element());
        t_max.ge(t_min)
    }

    pub fn min(&self) -> (m: Vec3)
        ensures
            m == self.corners().0,
    {
        self.min
    }

    pub fn max(&self) -> (m: Vec3)
        ensures
            m == self.corners().1,
    {
        self.max
    }

    pub fn bounds(&self) -> (b: (Vec3, Vec3))
        ensures
            b == self.corners(),
    {
        (self.min, self.max)
    }
}

/// A ray that only touches the box, so that entering and leaving coincide,
/// passes the slab test.
pub proof fn lemma_tangent_ray_is_accepted(slabs: Slabs, t_min: Scalar, t_max: Scalar)
    requires
        t_min.max_spec(slabs.entry()).same_value_spec(t_max.min_spec(slabs.exit())),
    ensures
        slabs.overlap(t_min, t_max),
{
}

} // verus!
