//! Objects: named runs of triangles with a bounding box.
use vstd::prelude::*;
use crate::aabb::{BoundingBox, Slabs};
use crate::ray::{Hit, Ray};
use crate::scalar::Scalar;
use crate::triangle::{Solution, Triangle};
use crate::trianglemesh::{MeshView, TriangleMesh};
use crate::vec3::Vec3;

verus! {

/// A named object of the scene: the triangles `start .. start + count` of a
/// mesh, and the box around them.
#[derive(Debug)]
pub struct Object {
    pub identifier: String,
    triangle_start_index: usize,
    triangle_count: usize,
    bounding_box: BoundingBox,
}

impl Object {
    /// The object's name.
    pub closed spec fn name(self) -> Seq<char> {
        self.identifier@
    }

    /// The position of the object's first triangle in the mesh.
    pub closed spec fn start(self) -> nat {
        self.triangle_start_index as nat
    }

    /// The number of the object's triangles.
    pub closed spec fn count(self) -> nat {
        self.triangle_count as nat
    }

    /// The object's bounding box.
    pub closed spec fn bounds(self) -> BoundingBox {
        self.bounding_box
    }

    /// The object's triangles lie in `mesh` and point into it.
    pub open spec fn fits(self, mesh: MeshView) -> bool {
        &&& self.start() + self.count() <= mesh.triangles.len()
        &&& forall|k: int|
            self.start() <= k < self.start() + self.count() ==> mesh.holds(#[trigger] mesh.triangles[k])
    }

    /// The object's box is the smallest one around its triangles.
    pub open spec fn encloses(self, mesh: MeshView) -> bool {
        self.bounds().corners() == mesh.bounds(self.start() as int, self.count())
    }

    /// The closest hit among the first `n` triangles of the object, given
    /// for each triangle of the mesh the solution of that triangle and the
    /// ray. Of two hits at the same distance the earlier triangle's stays.
    pub open spec fn closest_among(
        self,
        mesh: MeshView,
        ray: Ray,
        t_min: Scalar,
        t_max: Scalar,
        solutions: Seq<Solution>,
        n: nat,
    ) -> Option<Hit>
        decreases n,
    {
        if n == 0 {
            None
        } else {
            let k = self.start() + n - 1;
            Hit::nearer(
                self.closest_among(mesh, ray, t_min, t_max, solutions, (n - 1) as nat),
                mesh.triangle(k).intersect_spec(ray, t_min, t_max, solutions[k]),
            )
        }
    }

    /// The closest hit of `ray` on the object: none if the ray fails the
    /// slab test of the object's box, else the closest over all its
    /// triangles.
    pub open spec fn intersect_spec(
        self,
        mesh: MeshView,
        ray: Ray,
        t_min: Scalar,
        t_max: Scalar,
        slabs: Slabs,
        solutions: Seq<Solution>,
    ) -> Option<Hit> {
        if slabs.overlap(t_min, t_max) {
            self.closest_among(mesh, ray, t_min, t_max, solutions, self.count())
        } else {
            None
        }
    }

    /// The object made of the `triangle_count` triangles of `mesh` from
    /// `triangle_start_index` on. Its bounding box is computed here.
    pub fn new(identifier: String, triangle_start_index: usize, triangle_count: usize, mesh: &TriangleMesh) -> (o: Object)
        requires
            triangle_start_index + triangle_count <= mesh@.triangles.len(),
            forall|k: int|
                triangle_start_index <= k < triangle_start_index + triangle_count ==> mesh@.holds(
                    #[trigger] mesh@.triangles[k],
                ),
        ensures
            o.name() == identifier@,
            o.start() == triangle_start_index,
            o.count() == triangle_count,
            o.fits(mesh@),
            o.encloses(mesh@),
    {
        let bounding_box = Self::bounding_box(triangle_start_index, triangle_count, mesh);
        Object { identifier, triangle_start_index, triangle_count, bounding_box }
    }

    /// The smallest box around a run of triangles: the componentwise minimum
    /// and maximum over all their corners.
    fn bounding_box(triangle_start_index: usize, triangle_count: usize, mesh: &TriangleMesh) -> (b: BoundingBox)
        requires
            triangle_start_index + triangle_count <= mesh@.triangles.len(),
            forall|k: int|
                triangle_start_index <= k < triangle_start_index + triangle_count ==> mesh@.holds(
                    #[trigger] mesh@.triangles[k],
                ),
        ensures
            b.corners() == mesh@.bounds(triangle_start_index as int, triangle_count as nat),
    {
        let total: usize = mesh.triangle_indices().len();
        let mut bounding_box = BoundingBox::empty();
        let mut i: usize = 0;
        while i < triangle_count
            invariant
                i <= triangle_count,
                total == mesh@.triangles.len(),
                triangle_start_index + triangle_count <= mesh@.triangles.len(),
                forall|k: int|
                    triangle_start_index <= k < triangle_start_index + triangle_count ==> mesh@.holds(
                        #[trigger] mesh@.triangles[k],
                    ),
                bounding_box.corners() == mesh@.bounds(triangle_start_index as int, i as nat),
            decreases triangle_count - i,
        {
            let triangle = mesh.get_triangle_from_index(triangle_start_index + i);
            bounding_box = bounding_box.grow(&triangle);
            i += 1;
        }
        bounding_box
    }

    pub fn triangle_start_index(&self) -> (s: usize)
        ensures
            s == self.start(),
    {
        self.triangle_start_index
    }

    pub fn triangle_count(&self) -> (c: usize)
        ensures
            c == self.count(),
    {
        self.triangle_count
    }

    /// Whether the object's triangles lie in `mesh` and point into it.
    pub fn check(&self, mesh: &TriangleMesh) -> (r: bool)
        ensures
            r == self.fits(mesh@),
    {
        let total: usize = mesh.triangle_indices().len();
        if self.triangle_start_index > total || self.triangle_count > total - self.triangle_start_index {
            return false;
        }
        let mut i: usize = 0;
        while i < self.triangle_count
            invariant
                i <= self.triangle_count,
                total == mesh@.triangles.len(),
                self.triangle_start_index + self.triangle_count <= total,
                forall|k: int|
                    self.start() <= k < self.start() + i ==> mesh@.holds(#[trigger] mesh@.triangles[k]),
            decreases self.triangle_count - i,
        {
            let k: usize = self.triangle_start_index + i;
            if !mesh.holds(&mesh.triangle_indices()[k]) {
                assert(!mesh@.holds(mesh@.triangles[k as int]));
                return false;
            }
            i += 1;
        }
        true
    }

    /// The object's bounding box.
    pub fn aabb(&self) -> (b: BoundingBox)
        ensures
            b == self.bounds(),
    {
        self.bounding_box
    }

    /// The closest hit of `ray` on this object between `t_min` and `t_max`.
    ///
    /// `slabs` holds the crossings of the ray with the object's box, and
    /// `solutions[k]` the solution of the ray and the `k`-th triangle of the
    /// mesh. Where the ray fails the slab test no triangle is looked at.
    pub fn intersect(
        &self,
        mesh: &TriangleMesh,
        ray: &Ray,
        t_min: Scalar,
        t_max: Scalar,
        slabs: &Slabs,
        solutions: &[Solution],
    ) -> (hit: Option<Hit>)
        requires
            self.fits(mesh@),
            solutions@.len() == mesh@.triangles.len(),
        ensures
            hit == self.intersect_spec(mesh@, *ray, t_min, t_max, *slabs, solutions@),
            hit matches Some(h) ==> h.within(t_min, t_max) && h.incoming == *ray && mesh@.holds(h.triangle_index),
    {
        if !self.bounding_box.intersect(slabs, t_min, t_max) {
            return None;
        }
        let mut closest_hit: Option<Hit> = None;
        let mut i: usize = 0;
        while i < self.triangle_count
            invariant
                i <= self.triangle_count,
                self.fits(mesh@),
                solutions@.len() == mesh@.triangles.len(),
                closest_hit == self.closest_among(mesh@, *ray, t_min, t_max, solutions@, i as nat),
                closest_hit matches Some(h) ==> h.within(t_min, t_max) && h.incoming == *ray && mesh@.holds(
                    h.triangle_index,
                ),
            decreases self.triangle_count - i,
        {
            let k: usize = self.triangle_start_index + i;
            let triangle = mesh.get_triangle_from_index(k);
            let hit = triangle.intersect(ray, t_min, t_max, &solutions[k]);
            closest_hit = Hit::keep_nearer(closest_hit, hit);
            i += 1;
        }
        closest_hit
    }
}

/// The bounding box of a run of triangles holds every corner of every one
/// of them, provided that no coordinate of theirs is NaN.
pub proof fn lemma_bounds_contain_triangles(mesh: MeshView, start: int, count: nat, k: int)
    requires
        start <= k < start + count,
        forall|j: int| start <= j < start + count ==> !(#[trigger] mesh.triangle(j)).has_nan(),
    ensures
        ({
            let (lo, hi) = mesh.bounds(start, count);
            let corners = mesh.triangle(k).vertex_positions;
            &&& !lo.has_nan() && !hi.has_nan()
            &&& lo.le_spec(corners.0) && corners.0.le_spec(hi)
            &&& lo.le_spec(corners.1) && corners.1.le_spec(hi)
            &&& lo.le_spec(corners.2) && corners.2.le_spec(hi)
        }),
    decreases count,
{
    let last = mesh.triangle(start + count - 1);
    assert(!last.has_nan());
    if count == 1 {
        assert(mesh.bounds(start, 0) == BoundingBox::empty_corners());
    } else if k == start + count - 1 {
        lemma_bounds_contain_triangles(mesh, start, (count - 1) as nat, start);
    } else {
        lemma_bounds_contain_triangles(mesh, start, (count - 1) as nat, k);
    }
}

/// The bounding box of at least one triangle without NaN coordinates is a
/// box: no smallest coordinate exceeds the largest.
pub proof fn lemma_bounds_are_ordered(mesh: MeshView, start: int, count: nat)
    requires
        count > 0,
        forall|j: int| start <= j < start + count ==> !(#[trigger] mesh.triangle(j)).has_nan(),
    ensures
        mesh.bounds(start, count).0.le_spec(mesh.bounds(start, count).1),
{
    lemma_bounds_contain_triangles(mesh, start, count, start);
}

/// Some corner of triangle `k` of the mesh has the coordinate `value`
/// along `axis`.
pub open spec fn touches(mesh: MeshView, k: int, axis: int, value: Scalar) -> bool {
    let corners = mesh.triangle(k).vertex_positions;
    ||| corners.0.component(axis) == value
    ||| corners.1.component(axis) == value
    ||| corners.2.component(axis) == value
}

/// The bounding box of at least one triangle without NaN coordinates is
/// tight: along every axis each of its two bounds is a coordinate of some
/// corner of some triangle.
pub proof fn lemma_bounds_are_tight(mesh: MeshView, start: int, count: nat, axis: int)
    requires
        count > 0,
        0 <= axis < 3,
        forall|j: int| start <= j < start + count ==> !(#[trigger] mesh.triangle(j)).has_nan(),
    ensures
        exists|k: int|
            start <= k < start + count && #[trigger] touches(
                mesh,
                k,
                axis,
                mesh.bounds(start, count).0.component(axis),
            ),
        exists|k: int|
            start <= k < start + count && #[trigger] touches(
                mesh,
                k,
                axis,
                mesh.bounds(start, count).1.component(axis),
            ),
    decreases count,
{
    let last = start + count - 1;
    let triangle = mesh.triangle(last);
    assert(!triangle.has_nan());
    let before = mesh.bounds(start, (count - 1) as nat);
    let lo = mesh.bounds(start, count).0.component(axis);
    let hi = mesh.bounds(start, count).1.component(axis);
    if count == 1 {
        assert(before == BoundingBox::empty_corners());
        assert(touches(mesh, last, axis, lo));
        assert(touches(mesh, last, axis, hi));
    } else {
        lemma_bounds_are_tight(mesh, start, (count - 1) as nat, axis);
        lemma_bounds_contain_triangles(mesh, start, (count - 1) as nat, start);
        if lo == before.0.component(axis) {
            let k = choose|k: int|
                start <= k < start + count - 1 && #[trigger] touches(mesh, k, axis, before.0.component(axis));
            assert(touches(mesh, k, axis, lo));
        } else {
            assert(touches(mesh, last, axis, lo));
        }
        if hi == before.1.component(axis) {
            let k = choose|k: int|
                start <= k < start + count - 1 && #[trigger] touches(mesh, k, axis, before.1.component(axis));
            assert(touches(mesh, k, axis, hi));
        } else {
            assert(touches(mesh, last, axis, hi));
        }
    }
}

} // verus!
