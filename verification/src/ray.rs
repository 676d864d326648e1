//! Rays and the record of where one hit the scene.
use vstd::prelude::*;
use crate::scalar::Scalar;
use crate::material::Material;
use crate::triangle::TriangleIndex;
use crate::trianglemesh::TriangleMesh;
use crate::vec3::{Normal, Position, Vec3};

verus! {

/// A half-line: an origin and a direction, which need not have unit length.
#[derive(Debug, Clone, Copy, PartialEq, Eq, Structural)]
pub struct Ray {
    pub origin: Position,
    pub direction: Vec3,
}

impl Ray {
    pub fn new(origin: Position, direction: Vec3) -> (r: Ray)
        ensures
            r == (Ray { origin, direction }),
    {
        Ray { origin, direction }
    }

    /// The direction is the zero vector, as in the default ray. Such a ray
    /// has no direction and must not be tested against geometry.
    pub fn is_default(&self) -> (r: bool)
        ensures
            r == self.direction.is_zero_spec(),
    {
        self.direction.is_zero()
    }
}

impl Default for Ray {
    /// Origin and direction both zero.
    fn default() -> (r: Ray)
        ensures
            r == (Ray { origin: Vec3::zero(), direction: Vec3::zero() }),
    {
        Ray { origin: Vec3::zero(), direction: Vec3::zero() }
    }
}

/// Where a ray met a triangle.
#[derive(Debug, Clone, Copy, PartialEq, Eq, Structural)]
pub struct Hit {
    /// The point of the surface that was hit.
    pub hit_point: Position,
    /// The parameter `t` of that point along the incoming ray.
    pub distance: Scalar,
    /// The ray that hit.
    pub incoming: Ray,
    /// The triangle that was hit.
    pub triangle_index: TriangleIndex,
}

impl Hit {
    /// The distance lies strictly between the two bounds.
    pub open spec fn within(self, t_min: Scalar, t_max: Scalar) -> bool {
        t_min.lt_spec(self.distance) && self.distance.lt_spec(t_max)
    }

    /// The nearer of two hits; the first where neither is nearer.
    pub open spec fn closest_hit_spec(self, other: Hit) -> Hit {
        if other.distance.lt_spec(self.distance) {
            other
        } else {
            self
        }
    }

    /// The nearer of a hit found so far and one found next, where either may
    /// be missing. Where neither is nearer, the earlier one stays.
    pub open spec fn nearer(so_far: Option<Hit>, next: Option<Hit>) -> Option<Hit> {
        match (so_far, next) {
            (Some(a), Some(b)) => Some(a.closest_hit_spec(b)),
            (Some(a), None) => Some(a),
            (None, b) => b,
        }
    }

    /// Keeps the nearer of a hit found so far and one found next.
    pub fn keep_nearer(so_far: Option<Hit>, next: Option<Hit>) -> (h: Option<Hit>)
        ensures
            h == Hit::nearer(so_far, next),
    {
        match (so_far, next) {
            (Some(a), Some(b)) => Some(a.closest_hit(b)),
            (Some(a), None) => Some(a),
            (None, b) => b,
        }
    }

    pub fn new(hit_point: Position, distance: Scalar, incoming: Ray, triangle_index: TriangleIndex) -> (h: Hit)
        ensures
            h == (Hit { hit_point, distance, incoming, triangle_index }),
    {
        Hit { hit_point, distance, incoming, triangle_index }
    }

    /// Returns the hit with the smaller distance. Where the distances are
    /// equal, or one of them is NaN, `self` is returned.
    pub fn closest_hit(self, other: Hit) -> (h: Hit)
        ensures
            h == self.closest_hit_spec(other),
    {
        if other.distance.lt(self.distance) {
            other
        } else {
            self
        }
    }

    /// The index of the hit triangle's normal in its mesh.
    pub fn normal_index(&self) -> (n: usize)
        ensures
            n == self.triangle_index.indices_spec().3,
    {
        self.triangle_index.normal_index()
    }

    /// The normal of the hit triangle, looked up in its mesh.
    pub fn normal(&self, mesh: &TriangleMesh) -> (n: Normal)
        requires
            self.triangle_index.indices_spec().3 < mesh@.normals.len(),
        ensures
            n == mesh@.normals[self.triangle_index.indices_spec().3 as int],
    {
        mesh.triangle_normals()[self.normal_index()]
    }

    /// The index of the hit triangle's material in its mesh.
    pub fn material_index(&self) -> (m: usize)
        ensures
            m == self.triangle_index.indices_spec().4,
    {
        self.triangle_index.material_index()
    }

    /// The material of the hit triangle, looked up in its mesh.
    pub fn material(&self, mesh: &TriangleMesh) -> (m: Material)
        requires
            self.triangle_index.indices_spec().4 < mesh@.materials.len(),
        ensures
            m == mesh@.materials[self.triangle_index.indices_spec().4 as int],
    {
        mesh.materials()[self.material_index()]
    }

    /// The ray that leaves the hit point in the given direction.
    pub fn outgoing_ray(&self, direction: Vec3) -> (r: Ray)
        ensures
            r == (Ray { origin: self.hit_point, direction }),
    {
        Ray::new(self.hit_point, direction)
    }
}

/// Of two hits the closest has the smaller of the two distances, and where
/// the distances are equal it is the first.
pub proof fn lemma_closest_hit_is_stable_minimum(a: Hit, b: Hit)
    requires
        !a.distance.nan(),
        !b.distance.nan(),
    ensures
        a.closest_hit_spec(b).distance.key() == if a.distance.key() <= b.distance.key() {
            a.distance.key()
        } else {
            b.distance.key()
        },
        a.closest_hit_spec(b) == a || a.closest_hit_spec(b) == b,
        a.distance.key() == b.distance.key() ==> a.closest_hit_spec(b) == a,
{
}

} // verus!
