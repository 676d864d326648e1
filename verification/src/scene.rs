//! The scene: objects over one shared mesh, and the search for the closest
//! hit of a ray.
use vstd::prelude::*;
use crate::aabb::Slabs;
use crate::material::Material;
use crate::object::Object;
use crate::ray::{Hit, Ray};
use crate::scalar::Scalar;
use crate::triangle::Solution;
use crate::trianglemesh::{MeshView, TriangleMesh};
use crate::vec3::Vec3;

verus! {

/// The contents of a scene.
pub struct SceneView {
    pub objects: Seq<Object>,
    pub mesh: MeshView,
}

impl SceneView {
    /// Every object's triangles lie in the mesh and point into it, and the
    /// objects and the triangles can be counted in a `usize`.
    pub open spec fn well_formed(self) -> bool {
        &&& self.objects.len() <= usize::MAX
        &&& self.mesh.triangles.len() <= usize::MAX
        &&& forall|i: int| 0 <= i < self.objects.len() ==> (#[trigger] self.objects[i]).fits(self.mesh)
    }

    /// The closest hit among the first `n` objects, given the slabs of each
    /// object and the solution of each triangle of the mesh. Of two hits at
    /// the same distance the earlier object's stays.
    pub open spec fn closest_among(
        self,
        ray: Ray,
        t_min: Scalar,
        t_max: Scalar,
        slabs: Seq<Slabs>,
        solutions: Seq<Solution>,
        n: nat,
    ) -> Option<Hit>
        decreases n,
    {
        if n == 0 {
            None
        } else {
            Hit::nearer(
                self.closest_among(ray, t_min, t_max, slabs, solutions, (n - 1) as nat),
                self.objects[n - 1].intersect_spec(self.mesh, ray, t_min, t_max, slabs[n - 1], solutions),
            )
        }
    }

    /// The closest hit of the ray in the whole scene.
    pub open spec fn intersect_spec(
        self,
        ray: Ray,
        t_min: Scalar,
        t_max: Scalar,
        slabs: Seq<Slabs>,
        solutions: Seq<Solution>,
    ) -> Option<Hit> {
        self.closest_among(ray, t_min, t_max, slabs, solutions, self.objects.len())
    }

    /// The scene has nothing that a ray could hit: no object of it has a
    /// triangle. A scene without objects is such a scene.
    pub open spec fn bare(self) -> bool {
        forall|i: int| 0 <= i < self.objects.len() ==> (#[trigger] self.objects[i]).count() == 0
    }

    /// A hit is one that a search of this scene for `ray` may report.
    pub open spec fn reports(self, h: Hit, ray: Ray, t_min: Scalar, t_max: Scalar) -> bool {
        h.within(t_min, t_max) && h.incoming == ray && self.mesh.holds(h.triangle_index)
    }
}

/// An ordered list of objects that share one mesh.
pub struct Scene {
    objects: Vec<Object>,
    triangle_mesh: TriangleMesh,
}

impl View for Scene {
    type V = SceneView;

    closed spec fn view(&self) -> SceneView {
        SceneView { objects: self.objects@, mesh: self.triangle_mesh@ }
    }
}

impl Scene {
    /// The scene of the given objects over the given mesh. Nothing is
    /// checked: see [`Scene::is_well_formed`].
    pub fn new(triangle_mesh: TriangleMesh, objects: Vec<Object>) -> (scene: Scene)
        ensures
            scene@.mesh == triangle_mesh@,
            scene@.objects == objects@,
    {
        Scene { objects, triangle_mesh }
    }

    /// The material at `material_index`, if the mesh has that many.
    pub fn get_material(&self, material_index: usize) -> (m: Option<&Material>)
        ensures
            material_index < self@.mesh.materials.len() ==> m == Some(
                &self@.mesh.materials[material_index as int],
            ),
            material_index >= self@.mesh.materials.len() ==> m is None,
    {
        self.triangle_mesh.get_material(material_index)
    }

    pub fn triangle_mesh(&self) -> (mesh: &TriangleMesh)
        ensures
            mesh@ == self@.mesh,
    {
        &self.triangle_mesh
    }

    pub fn objects(&self) -> (objects: &[Object])
        ensures
            objects@ == self@.objects,
    {
        self.objects.as_slice()
    }

    /// Whether every object's triangles lie in the mesh and point into it.
    pub fn is_well_formed(&self) -> (r: bool)
        ensures
            r == self@.well_formed(),
    {
        let n: usize = self.objects.len();
        let total: usize = self.triangle_mesh.triangle_indices().len();
        let mut i: usize = 0;
        while i < n
            invariant
                n == self.objects@.len(),
                total == self@.mesh.triangles.len(),
                i <= n,
                forall|j: int| 0 <= j < i ==> (#[trigger] self@.objects[j]).fits(self@.mesh),
            decreases n - i,
        {
            if !self.objects[i].check(&self.triangle_mesh) {
                assert(!self@.objects[i as int].fits(self@.mesh));
                return false;
            }
            i += 1;
        }
        true
    }

    /// Whether the scene has nothing that a ray could hit: no object of it
    /// has a triangle.
    pub fn is_bare(&self) -> (r: bool)
        ensures
            r == self@.bare(),
    {
        let n: usize = self.objects.len();
        let mut i: usize = 0;
        while i < n
            invariant
                n == self.objects@.len(),
                i <= n,
                forall|j: int| 0 <= j < i ==> (#[trigger] self@.objects[j]).count() == 0,
            decreases n - i,
        {
            if self.objects[i].triangle_count() != 0 {
                assert(self@.objects[i as int].count() != 0);
                return false;
            }
            i += 1;
        }
        true
    }

    /// The closest hit of `ray` in the scene between `t_min` and `t_max`,
    /// both exclusive, or none.
    ///
    /// `slabs[i]` holds the crossings of the ray with the box of object `i`,
    /// and `solutions[k]` the solution of the ray and the `k`-th triangle of
    /// the mesh. The objects are scanned in order; an object whose box the
    /// ray misses contributes nothing.
    pub fn intersect(&self, ray: &Ray, t_min: Scalar, t_max: Scalar, slabs: &[Slabs], solutions: &[Solution]) -> (hit:
        Option<Hit>)
        requires
            self@.well_formed(),
            slabs@.len() == self@.objects.len(),
            solutions@.len() == self@.mesh.triangles.len(),
        ensures
            hit == self@.intersect_spec(*ray, t_min, t_max, slabs@, solutions@),
            hit matches Some(h) ==> self@.reports(h, *ray, t_min, t_max),
    {
        let n: usize = self.objects.len();
        let mut closest_hit: Option<Hit> = None;
        let mut i: usize = 0;
        while i < n
            invariant
                n == self.objects@.len(),
                i <= n,
                self@.well_formed(),
                slabs@.len() == self@.objects.len(),
                solutions@.len() == self@.mesh.triangles.len(),
                closest_hit == self@.closest_among(*ray, t_min, t_max, slabs@, solutions@, i as nat),
                closest_hit matches Some(h) ==> self@.reports(h, *ray, t_min, t_max),
            decreases n - i,
        {
            let hit = self.objects[i].intersect(&self.triangle_mesh, ray, t_min, t_max, &slabs[i], solutions);
            closest_hit = Hit::keep_nearer(closest_hit, hit);
            i += 1;
        }
        closest_hit
    }
}

impl Scene {
    /// The vertex positions as words for a compute device: the bits of
    /// `x`, `y` and `z`, and a zero to fill the row.
    pub fn gpu_vertex_pos_data(&self) -> (rows: Vec<[u32; 4]>)
        ensures
            rows@.len() == self@.mesh.positions.len(),
            forall|i: int| 0 <= i < rows@.len() ==> (#[trigger] rows@[i])@ == padded(self@.mesh.positions[i]),
    {
        pad_rows(self.triangle_mesh.vertex_positions())
    }

    /// The face normals as words for a compute device: the bits of `x`,
    /// `y` and `z`, and a zero to fill the row.
    pub fn gpu_triangle_normal_data(&self) -> (rows: Vec<[u32; 4]>)
        ensures
            rows@.len() == self@.mesh.normals.len(),
            forall|i: int| 0 <= i < rows@.len() ==> (#[trigger] rows@[i])@ == padded(self@.mesh.normals[i]),
    {
        pad_rows(self.triangle_mesh.triangle_normals())
    }

    /// The triangles as words for a compute device: `(v0, v1, v2, n, m)`,
    /// each index cut down to 32 bits.
    pub fn gpu_triangle_index_data(&self) -> (rows: Vec<[u32; 5]>)
        ensures
            rows@.len() == self@.mesh.triangles.len(),
            forall|i: int|
                0 <= i < rows@.len() ==> (#[trigger] rows@[i])@ == index_words(self@.mesh.triangles[i].indices_spec()),
    {
        let triangles = self.triangle_mesh.triangle_indices();
        let mut rows: Vec<[u32; 5]> = Vec::new();
        let mut i: usize = 0;
        while i < triangles.len()
            invariant
                i <= triangles@.len(),
                triangles@ == self@.mesh.triangles,
                rows@.len() == i,
                forall|j: int|
                    0 <= j < i ==> (#[trigger] rows@[j])@ == index_words(self@.mesh.triangles[j].indices_spec()),
            decreases triangles@.len() - i,
        {
            let (v1, v2, v3, n, m) = triangles[i].indices();
            let row: [u32; 5] = [low_word(v1), low_word(v2), low_word(v3), low_word(n), low_word(m)];
            assert(row@ =~= index_words(self@.mesh.triangles[i as int].indices_spec()));
            rows.push(row);
            i += 1;
        }
        rows
    }

    /// The materials as words for a compute device: the bits of the diffuse
    /// colour and a zero, then the bits of the emissive colour and a zero.
    pub fn gpu_material_data(&self) -> (rows: Vec<[u32; 8]>)
        ensures
            rows@.len() == self@.mesh.materials.len(),
            forall|i: int|
                0 <= i < rows@.len() ==> (#[trigger] rows@[i])@ == padded(self@.mesh.materials[i].diffuse_color)
                    + padded(self@.mesh.materials[i].emissive_color),
    {
        let materials = self.triangle_mesh.materials();
        let mut rows: Vec<[u32; 8]> = Vec::new();
        let mut i: usize = 0;
        while i < materials.len()
            invariant
                i <= materials@.len(),
                materials@ == self@.mesh.materials,
                rows@.len() == i,
                forall|j: int|
                    0 <= j < i ==> (#[trigger] rows@[j])@ == padded(self@.mesh.materials[j].diffuse_color) + padded(
                        self@.mesh.materials[j].emissive_color,
                    ),
            decreases materials@.len() - i,
        {
            let d = materials[i].diffuse_color;
            let e = materials[i].emissive_color;
            let row: [u32; 8] = [d.x.bits, d.y.bits, d.z.bits, 0, e.x.bits, e.y.bits, e.z.bits, 0];
            assert(row@ =~= padded(d) + padded(e));
            rows.push(row);
            i += 1;
        }
        rows
    }

    /// The objects as words for a compute device: the number of objects,
    /// then for each object its position in the scene, the position of its
    /// first triangle and the number of its triangles, each cut down to 32
    /// bits.
    pub fn gpu_object_data(&self) -> (words: Vec<u32>)
        ensures
            words@ == object_words(self@.objects, self@.objects.len()),
    {
        let mut words: Vec<u32> = Vec::new();
        words.push(low_word(self.objects.len()));
        let mut i: usize = 0;
        while i < self.objects.len()
            invariant
                i <= self.objects@.len(),
                words@ == object_words(self@.objects, i as nat),
            decreases self.objects@.len() - i,
        {
            let object = &self.objects[i];
            words.push(low_word(i));
            words.push(low_word(object.triangle_start_index()));
            words.push(low_word(object.triangle_count()));
            i += 1;
        }
        words
    }

    /// The bounding boxes of the objects as words for a compute device:
    /// the bits of the smallest corner and a zero, then the bits of the
    /// largest corner and a zero.
    pub fn gpu_aabb_data(&self) -> (rows: Vec<[u32; 8]>)
        ensures
            rows@.len() == self@.objects.len(),
            forall|i: int|
                0 <= i < rows@.len() ==> (#[trigger] rows@[i])@ == padded(self@.objects[i].bounds().corners().0)
                    + padded(self@.objects[i].bounds().corners().1),
    {
        let mut rows: Vec<[u32; 8]> = Vec::new();
        let mut i: usize = 0;
        while i < self.objects.len()
            invariant
                i <= self.objects@.len(),
                rows@.len() == i,
                forall|j: int|
                    0 <= j < i ==> (#[trigger] rows@[j])@ == padded(self@.objects[j].bounds().corners().0) + padded(
                        self@.objects[j].bounds().corners().1,
                    ),
            decreases self.objects@.len() - i,
        {
            let (min, max) = self.objects[i].aabb().bounds();
            let row: [u32; 8] = [min.x.bits, min.y.bits, min.z.bits, 0, max.x.bits, max.y.bits, max.z.bits, 0];
            assert(row@ =~= padded(min) + padded(max));
            rows.push(row);
            i += 1;
        }
        rows
    }
}

/// The bits of a vector's three components, and a zero to fill the row.
pub open spec fn padded(v: Vec3) -> Seq<u32> {
    seq![v.x.bits, v.y.bits, v.z.bits, 0u32]
}

/// Five indices, each cut down to 32 bits.
pub open spec fn index_words(indices: (usize, usize, usize, usize, usize)) -> Seq<u32> {
    seq![
        indices.0 as u32,
        indices.1 as u32,
        indices.2 as u32,
        indices.3 as u32,
        indices.4 as u32,
    ]
}

/// The number of objects, cut down to 32 bits, and three words for each of
/// the first `n` objects.
pub open spec fn object_words(objects: Seq<Object>, n: nat) -> Seq<u32>
    decreases n,
{
    if n == 0 {
        seq![objects.len() as u32]
    } else {
        object_words(objects, (n - 1) as nat) + seq![
            (n - 1) as u32,
            objects[n - 1].start() as u32,
            objects[n - 1].count() as u32,
        ]
    }
}

/// The low 32 bits of an index.
fn low_word(index: usize) -> (word: u32)
    ensures
        word == index as u32,
{
    #[verifier::truncate]
    (index as u32)
}

/// A row of four words for each vector.
fn pad_rows(vectors: &[Vec3]) -> (rows: Vec<[u32; 4]>)
    ensures
        rows@.len() == vectors@.len(),
        forall|i: int| 0 <= i < rows@.len() ==> (#[trigger] rows@[i])@ == padded(vectors@[i]),
{
    let mut rows: Vec<[u32; 4]> = Vec::new();
    let mut i: usize = 0;
    while i < vectors.len()
        invariant
            i <= vectors@.len(),
            rows@.len() == i,
            forall|j: int| 0 <= j < i ==> (#[trigger] rows@[j])@ == padded(vectors@[j]),
        decreases vectors@.len() - i,
    {
        let v = vectors[i];
        let row: [u32; 4] = [v.x.bits, v.y.bits, v.z.bits, 0];
        assert(row@ =~= padded(v));
        rows.push(row);
        i += 1;
    }
    rows
}

/// A scene without objects is never hit.
pub proof fn lemma_empty_scene_is_never_hit(
    scene: SceneView,
    ray: Ray,
    t_min: Scalar,
    t_max: Scalar,
    slabs: Seq<Slabs>,
    solutions: Seq<Solution>,
)
    requires
        scene.objects.len() == 0,
    ensures
        scene.intersect_spec(ray, t_min, t_max, slabs, solutions) is None,
{
}

/// A scene none of whose objects has a triangle is never hit, whatever the
/// ray, the bounds, the slabs and the solutions are.
pub proof fn lemma_bare_scene_is_never_hit(
    scene: SceneView,
    ray: Ray,
    t_min: Scalar,
    t_max: Scalar,
    slabs: Seq<Slabs>,
    solutions: Seq<Solution>,
)
    requires
        scene.bare(),
    ensures
        scene.intersect_spec(ray, t_min, t_max, slabs, solutions) is None,
{
    lemma_nothing_among_bare_objects(scene, ray, t_min, t_max, slabs, solutions, scene.objects.len());
}

proof fn lemma_nothing_among_bare_objects(
    scene: SceneView,
    ray: Ray,
    t_min: Scalar,
    t_max: Scalar,
    slabs: Seq<Slabs>,
    solutions: Seq<Solution>,
    n: nat,
)
    requires
        scene.bare(),
        n <= scene.objects.len(),
    ensures
        scene.closest_among(ray, t_min, t_max, slabs, solutions, n) is None,
    decreases n,
{
    if n > 0 {
        lemma_nothing_among_bare_objects(scene, ray, t_min, t_max, slabs, solutions, (n - 1) as nat);
        assert(scene.objects[n - 1].count() == 0);
    }
}

/// Whatever the slabs and solutions are, a hit that the scene reports lies
/// strictly between the two bounds, on the ray that was asked about, on a
/// triangle whose indices point into the mesh.
pub proof fn lemma_hit_lies_between_bounds(
    scene: SceneView,
    ray: Ray,
    t_min: Scalar,
    t_max: Scalar,
    slabs: Seq<Slabs>,
    solutions: Seq<Solution>,
)
    requires
        scene.well_formed(),
    ensures
        scene.intersect_spec(ray, t_min, t_max, slabs, solutions) matches Some(h) ==> {
            &&& t_min.lt_spec(h.distance)
            &&& h.distance.lt_spec(t_max)
            &&& h.incoming == ray
            &&& scene.mesh.holds(h.triangle_index)
        },
{
    lemma_closest_among_objects_reports(scene, ray, t_min, t_max, slabs, solutions, scene.objects.len());
}

proof fn lemma_closest_among_objects_reports(
    scene: SceneView,
    ray: Ray,
    t_min: Scalar,
    t_max: Scalar,
    slabs: Seq<Slabs>,
    solutions: Seq<Solution>,
    n: nat,
)
    requires
        scene.well_formed(),
        n <= scene.objects.len(),
    ensures
        scene.closest_among(ray, t_min, t_max, slabs, solutions, n) matches Some(h) ==> scene.reports(
            h,
            ray,
            t_min,
            t_max,
        ),
    decreases n,
{
    if n > 0 {
        lemma_closest_among_objects_reports(scene, ray, t_min, t_max, slabs, solutions, (n - 1) as nat);
        let object = scene.objects[n - 1];
        assert(object.fits(scene.mesh));
        lemma_closest_among_triangles_reports(object, scene.mesh, ray, t_min, t_max, solutions, object.count());
    }
}

/// A hit among the first `n` triangles of an object lies between the bounds,
/// on the ray, on a triangle that points into the mesh.
pub proof fn lemma_closest_among_triangles_reports(
    object: Object,
    mesh: MeshView,
    ray: Ray,
    t_min: Scalar,
    t_max: Scalar,
    solutions: Seq<Solution>,
    n: nat,
)
    requires
        object.fits(mesh),
        n <= object.count(),
    ensures
        object.closest_among(mesh, ray, t_min, t_max, solutions, n) matches Some(h) ==> {
            &&& h.within(t_min, t_max)
            &&& h.incoming == ray
            &&& mesh.holds(h.triangle_index)
        },
    decreases n,
{
    if n > 0 {
        lemma_closest_among_triangles_reports(object, mesh, ray, t_min, t_max, solutions, (n - 1) as nat);
        let k = object.start() + n - 1;
        assert(mesh.holds(mesh.triangles[k]));
    }
}

} // verus!
