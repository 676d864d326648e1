//! Triangles: their indices into a mesh, and the test of a ray against one.
use vstd::prelude::*;
use crate::ray::{Hit, Ray};
use crate::scalar::Scalar;
use crate::vec3::{Normal, Position, Vec3};

verus! {

/// The indices of one triangle: three vertex positions, a face normal and a
/// material, all zero-based.
#[derive(Debug, Clone, Copy, PartialEq, Eq, Structural)]
pub struct TriangleIndex {
    v0: usize,
    v1: usize,
    v2: usize,
    normal_index: usize,
    material_index: usize,
}

impl TriangleIndex {
    /// The five indices in the order `(v0, v1, v2, n, m)`.
    pub closed spec fn indices_spec(self) -> (usize, usize, usize, usize, usize) {
        (self.v0, self.v1, self.v2, self.normal_index, self.material_index)
    }

    /// What [`TriangleIndex::from_slice`] reads out of a sequence of at least
    /// four values: a fifth is the material, which is `0` without one.
    pub open spec fn of_seq(values: Seq<usize>) -> (usize, usize, usize, usize, usize) {
        (values[0], values[1], values[2], values[3], if values.len() >= 5 {
            values[4]
        } else {
            0
        })
    }

    /// Every index lies inside a mesh of the given sizes.
    pub open spec fn in_bounds(self, positions: nat, normals: nat, materials: nat) -> bool {
        indices_in_bounds(self.indices_spec(), positions, normals, materials)
    }

    /// A triangle of the given vertex, normal and material indices.
    pub fn new(vertex_indices: (usize, usize, usize), normal_index: usize, material_index: usize) -> (t: Self)
        ensures
            t.indices_spec() == (
                vertex_indices.0,
                vertex_indices.1,
                vertex_indices.2,
                normal_index,
                material_index,
            ),
    {
        Self {
            v0: vertex_indices.0,
            v1: vertex_indices.1,
            v2: vertex_indices.2,
            normal_index,
            material_index,
        }
    }

    /// The vertex indices `(v0, v1, v2)`.
    pub fn vertex_indices(&self) -> (v: (usize, usize, usize))
        ensures
            v == (self.indices_spec().0, self.indices_spec().1, self.indices_spec().2),
    {
        (self.v0, self.v1, self.v2)
    }

    pub fn material_index(&self) -> (m: usize)
        ensures
            m == self.indices_spec().4,
    {
        self.material_index
    }

    pub fn normal_index(&self) -> (n: usize)
        ensures
            n == self.indices_spec().3,
    {
        self.normal_index
    }

    /// All five indices, `(v0, v1, v2, n, m)`.
    pub fn indices(&self) -> (i: (usize, usize, usize, usize, usize))
        ensures
            i == self.indices_spec(),
    {
        (self.v0, self.v1, self.v2, self.normal_index, self.material_index)
    }

    /// A triangle from a list of values: three vertices, a normal and, if
    /// there is a fifth value, a material. Values after the fifth are ignored.
    pub fn from_slice(values: &[usize]) -> (t: Self)
        requires
            values@.len() >= 4,
        ensures
            t.indices_spec() == TriangleIndex::of_seq(values@),
    {
        if values.len() >= 5 {
            Self::new((values[0], values[1], values[2]), values[3], values[4])
        } else {
            Self::new((values[0], values[1], values[2]), values[3], 0)
        }
    }
}

impl Default for TriangleIndex {
    /// All indices zero.
    fn default() -> (t: TriangleIndex)
        ensures
            t.indices_spec() == (0usize, 0usize, 0usize, 0usize, 0usize),
    {
        Self::new((0, 0, 0), 0, 0)
    }
}

/// Five indices `(v0, v1, v2, n, m)` lie inside a mesh of the given sizes.
pub open spec fn indices_in_bounds(
    indices: (usize, usize, usize, usize, usize),
    positions: nat,
    normals: nat,
    materials: nat,
) -> bool {
    &&& indices.0 < positions
    &&& indices.1 < positions
    &&& indices.2 < positions
    &&& indices.3 < normals
    &&& indices.4 < materials
}

/// What the Möller–Trumbore computation yields for one triangle and one ray:
/// with `e0 = v1 - v0`, `e1 = v2 - v0`, `h = D × e1`, `s = O - v0`,
/// `q = s × e0` and `f = 1 / a`.
#[derive(Debug, Clone, Copy, PartialEq, Eq, Structural)]
pub struct Solution {
    /// `a = e0 · h`.
    pub determinant: Scalar,
    /// `u = f (s · h)`.
    pub u: Scalar,
    /// `v = f (D · q)`.
    pub v: Scalar,
    /// `u + v`, rounded once.
    pub u_plus_v: Scalar,
    /// `t = f (e1 · q)`.
    pub distance: Scalar,
    /// `O + D t`.
    pub point: Position,
}

impl Solution {
    /// The ray runs parallel to the triangle's plane, or nearly so:
    /// `|a| < ε`.
    pub open spec fn parallel(self) -> bool {
        self.determinant.abs_spec().lt_spec(Scalar::epsilon())
    }

    /// The barycentric coordinates lie inside the triangle.
    pub open spec fn inside(self) -> bool {
        &&& Scalar::zero().le_spec(self.u)
        &&& self.u.le_spec(Scalar::one())
        &&& !self.v.lt_spec(Scalar::zero())
        &&& !Scalar::one().lt_spec(self.u_plus_v)
    }

    /// The ray hits the triangle at a distance strictly between the bounds.
    pub open spec fn accepted(self, t_min: Scalar, t_max: Scalar) -> bool {
        &&& !self.parallel()
        &&& self.inside()
        &&& t_min.lt_spec(self.distance)
        &&& self.distance.lt_spec(t_max)
    }
}

/// A triangle with its data resolved: three corners, the face normal and the
/// indices it was resolved from.
#[derive(Debug, Clone, Copy)]
pub struct Triangle {
    pub vertex_positions: (Position, Position, Position),
    pub normal: Normal,
    pub triangle_index: TriangleIndex,
}

impl Triangle {
    /// Some coordinate of some corner is NaN.
    pub open spec fn has_nan(self) -> bool {
        self.vertex_positions.0.has_nan() || self.vertex_positions.1.has_nan()
            || self.vertex_positions.2.has_nan()
    }

    /// Componentwise minimum of the three corners.
    pub open spec fn min_spec(self) -> Vec3 {
        self.vertex_positions.0.min_spec(self.vertex_positions.1).min_spec(self.vertex_positions.2)
    }

    /// Componentwise maximum of the three corners.
    pub open spec fn max_spec(self) -> Vec3 {
        self.vertex_positions.0.max_spec(self.vertex_positions.1).max_spec(self.vertex_positions.2)
    }

    /// The hit that an accepted solution gives for `ray`.
    pub open spec fn hit_of(self, ray: Ray, solution: Solution) -> Hit {
        Hit {
            hit_point: solution.point,
            distance: solution.distance,
            incoming: ray,
            triangle_index: self.triangle_index,
        }
    }

    /// The result of testing `ray` against this triangle, given the solution
    /// of the two.
    pub open spec fn intersect_spec(self, ray: Ray, t_min: Scalar, t_max: Scalar, solution: Solution) -> Option<Hit> {
        if solution.accepted(t_min, t_max) {
            Some(self.hit_of(ray, solution))
        } else {
            None
        }
    }

    pub fn new(vertex_positions: (Position, Position, Position), normal: Normal, triangle_index: TriangleIndex) -> (t: Self)
        ensures
            t.vertex_positions == vertex_positions,
            t.normal == normal,
            t.triangle_index == triangle_index,
    {
        Self { vertex_positions, normal, triangle_index }
    }

    /// The smallest coordinates of the corners, for bounding boxes.
    pub fn min(&self) -> (m: Vec3)
        ensures
            m == self.min_spec(),
    {
        self.vertex_positions.0.min(self.vertex_positions.1).min(self.vertex_positions.2)
    }

    /// The largest coordinates of the corners, for bounding boxes.
    pub fn max(&self) -> (m: Vec3)
        ensures
            m == self.max_spec(),
    {
        self.vertex_positions.0.max(self.vertex_positions.1).max(self.vertex_positions.2)
    }

    /// Decides whether `ray` hits this triangle between `t_min` and `t_max`,
    /// both exclusive, from the solution computed for the two.
    ///
    /// A ray parallel to the plane (`|a| < ε`) misses. So does one whose
    /// `u` is outside `[0, 1]`, whose `v` is below zero, or whose `u + v`
    /// exceeds one.
    pub fn intersect(&self, ray: &Ray, t_min: Scalar, t_max: Scalar, solution: &Solution) -> (hit: Option<Hit>)
        ensures
            hit == self.intersect_spec(*ray, t_min, t_max, *solution),
    {
        if solution.determinant.abs().lt(Scalar::epsilon()) {
            return None;
        }
        if !(Scalar::zero().le(solution.u) && solution.u.le(Scalar::one())) {
            return None;
        }
        if solution.v.lt(Scalar::zero()) || solution.u_plus_v.gt(Scalar::one()) {
            return None;
        }
        if solution.distance.gt(t_min) && solution.distance.lt(t_max) {
            return Some(Hit::new(solution.point, solution.distance, *ray, self.triangle_index));
        }
        None
    }
}

/// A ray that runs exactly along the plane of a triangle, so that the
/// determinant is zero, misses the triangle, whatever else was computed.
pub proof fn lemma_ray_along_plane_misses(
    triangle: Triangle,
    ray: Ray,
    t_min: Scalar,
    t_max: Scalar,
    solution: Solution,
)
    requires
        solution.determinant.magnitude() == 0,
    ensures
        triangle.intersect_spec(ray, t_min, t_max, solution) is None,
{
}

/// A hit that the test of a triangle reports lies strictly between the two
/// bounds, on the ray that was tested.
pub proof fn lemma_hit_is_between_bounds(
    triangle: Triangle,
    ray: Ray,
    t_min: Scalar,
    t_max: Scalar,
    solution: Solution,
)
    ensures
        triangle.intersect_spec(ray, t_min, t_max, solution) matches Some(h) ==> {
            &&& t_min.lt_spec(h.distance)
            &&& h.distance.lt_spec(t_max)
            &&& h.incoming == ray
            &&& h.hit_point == solution.point
        },
{
}

} // verus!
