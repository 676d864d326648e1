//! The shared store of vertex positions, face normals, materials and
//! triangles.
use vstd::prelude::*;
use crate::material::Material;
use crate::ray::{Hit, Ray};
use crate::scalar::Scalar;
use crate::triangle::{Solution, Triangle, TriangleIndex};
use crate::aabb::BoundingBox;
use crate::vec3::{Normal, Position, Vec3};

verus! {

/// The contents of a mesh.
pub struct MeshView {
    pub positions: Seq<Position>,
    pub normals: Seq<Normal>,
    pub materials: Seq<Material>,
    pub triangles: Seq<TriangleIndex>,
}

impl MeshView {
    /// The indices of `t` all point into this mesh.
    pub open spec fn holds(self, t: TriangleIndex) -> bool {
        t.in_bounds(self.positions.len(), self.normals.len(), self.materials.len())
    }

    /// Every triangle of the mesh points into the mesh.
    pub open spec fn well_formed(self) -> bool {
        forall|i: int| 0 <= i < self.triangles.len() ==> self.holds(#[trigger] self.triangles[i])
    }

    /// The triangle that `t` stands for.
    pub open spec fn resolve(self, t: TriangleIndex) -> Triangle {
        Triangle {
            vertex_positions: (
                self.positions[t.indices_spec().0 as int],
                self.positions[t.indices_spec().1 as int],
                self.positions[t.indices_spec().2 as int],
            ),
            normal: self.normals[t.indices_spec().3 as int],
            triangle_index: t,
        }
    }

    /// The `i`-th triangle of the mesh, resolved.
    pub open spec fn triangle(self, i: int) -> Triangle {
        self.resolve(self.triangles[i])
    }

    /// The corners of the smallest box around the `count` triangles from
    /// `start` on.
    pub open spec fn bounds(self, start: int, count: nat) -> (Vec3, Vec3)
        decreases count,
    {
        if count == 0 {
            BoundingBox::empty_corners()
        } else {
            BoundingBox::grown(self.bounds(start, (count - 1) as nat), self.triangle(start + count - 1))
        }
    }
}

/// A triangle mesh: vertex positions, face normals and materials, and the
/// triangles that index into the three.
#[derive(Debug, Clone, PartialEq)]
pub struct TriangleMesh {
    vertex_positions: Vec<Position>,
    triangle_normals: Vec<Normal>,
    materials: Vec<Material>,
    triangle_indices: Vec<TriangleIndex>,
}

impl View for TriangleMesh {
    type V = MeshView;

    closed spec fn view(&self) -> MeshView {
        MeshView {
            positions: self.vertex_positions@,
            normals: self.triangle_normals@,
            materials: self.materials@,
            triangles: self.triangle_indices@,
        }
    }
}

impl TriangleMesh {
    /// A mesh of the given positions, normals, materials and triangles.
    /// Nothing is checked: see [`TriangleMesh::is_well_formed`].
    pub fn new(
        vertex_positions: Vec<Position>,
        triangle_normals: Vec<Normal>,
        triangle_materials: Vec<Material>,
        triangle_indices: Vec<TriangleIndex>,
    ) -> (mesh: Self)
        ensures
            mesh@.positions == vertex_positions@,
            mesh@.normals == triangle_normals@,
            mesh@.materials == triangle_materials@,
            mesh@.triangles == triangle_indices@,
    {
        Self { vertex_positions, triangle_normals, materials: triangle_materials, triangle_indices }
    }

    pub fn vertex_positions(&self) -> (s: &[Position])
        ensures
            s@ == self@.positions,
    {
        self.vertex_positions.as_slice()
    }

    /// Appends triangles to the mesh.
    pub fn extend_triangle_indices(&mut self, triangle_indices: &[TriangleIndex])
        ensures
            final(self)@.triangles == old(self)@.triangles + triangle_indices@,
            final(self)@.positions == old(self)@.positions,
            final(self)@.normals == old(self)@.normals,
            final(self)@.materials == old(self)@.materials,
    {
        let n: usize = triangle_indices.len();
        let mut i: usize = 0;
        while i < n
            invariant
                n == triangle_indices@.len(),
                i <= n,
                self.triangle_indices@ == old(self).triangle_indices@ + triangle_indices@.subrange(0, i as int),
                self.vertex_positions == old(self).vertex_positions,
                self.triangle_normals == old(self).triangle_normals,
                self.materials == old(self).materials,
            decreases n - i,
        {
            self.triangle_indices.push(triangle_indices[i]);
            i += 1;
        }
        assert(triangle_indices@.subrange(0, n as int) == triangle_indices@);
    }

    pub fn triangle_normals(&self) -> (s: &[Normal])
        ensures
            s@ == self@.normals,
    {
        self.triangle_normals.as_slice()
    }

    pub fn materials(&self) -> (s: &[Material])
        ensures
            s@ == self@.materials,
    {
        self.materials.as_slice()
    }

    pub fn triangle_indices(&self) -> (s: &[TriangleIndex])
        ensures
            s@ == self@.triangles,
    {
        self.triangle_indices.as_slice()
    }

    /// The material at `material_index`, if the mesh has that many.
    pub fn get_material(&self, material_index: usize) -> (m: Option<&Material>)
        ensures
            material_index < self@.materials.len() ==> m == Some(&self@.materials[material_index as int]),
            material_index >= self@.materials.len() ==> m is None,
    {
        if material_index < self.materials.len() {
            Some(&self.materials[material_index])
        } else {
            None
        }
    }

    /// Whether the indices of `triangle_index` all point into this mesh.
    pub fn holds(&self, triangle_index: &TriangleIndex) -> (r: bool)
        ensures
            r == self@.holds(*triangle_index),
    {
        let (v0, v1, v2, n, m) = triangle_index.indices();
        let positions: usize = self.vertex_positions.len();
        v0 < positions && v1 < positions && v2 < positions && n < self.triangle_normals.len() && m
            < self.materials.len()
    }

    /// Whether every triangle of the mesh points into the mesh.
    pub fn is_well_formed(&self) -> (r: bool)
        ensures
            r == self@.well_formed(),
    {
        let n: usize = self.triangle_indices.len();
        let mut i: usize = 0;
        while i < n
            invariant
                n == self.triangle_indices@.len(),
                i <= n,
                forall|j: int| 0 <= j < i ==> self@.holds(#[trigger] self@.triangles[j]),
            decreases n - i,
        {
            if !self.holds(&self.triangle_indices[i]) {
                assert(!self@.holds(self@.triangles[i as int]));
                return false;
            }
            i += 1;
        }
        true
    }

    /// The corners and the normal of a triangle.
    pub fn get_triangle(&self, triangle_index: &TriangleIndex) -> (t: Triangle)
        requires
            self@.holds(*triangle_index),
        ensures
            t == self@.resolve(*triangle_index),
    {
        let (v1, v2, v3, n, _) = triangle_index.indices();
        Triangle::new(
            (self.vertex_positions[v1], self.vertex_positions[v2], self.vertex_positions[v3]),
            self.triangle_normals[n],
            *triangle_index,
        )
    }

    /// The corners and the normal of the `triangle_index`-th triangle.
    pub fn get_triangle_from_index(&self, triangle_index: usize) -> (t: Triangle)
        requires
            triangle_index < self@.triangles.len(),
            self@.holds(self@.triangles[triangle_index as int]),
        ensures
            t == self@.triangle(triangle_index as int),
    {
        let index = self.triangle_indices[triangle_index];
        self.get_triangle(&index)
    }

    /// Decides whether `ray` hits the given triangle of this mesh between
    /// `t_min` and `t_max`, from the solution computed for the two.
    pub fn intersect_triangle(
        &self,
        ray: &Ray,
        triangle_index: &TriangleIndex,
        t_min: Scalar,
        t_max: Scalar,
        solution: &Solution,
    ) -> (hit: Option<Hit>)
        requires
            self@.holds(*triangle_index),
        ensures
            hit == self@.resolve(*triangle_index).intersect_spec(*ray, t_min, t_max, *solution),
    {
        let triangle = self.get_triangle(triangle_index);
        triangle.intersect(ray, t_min, t_max, solution)
    }
}

} // verus!
