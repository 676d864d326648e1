//! The search for the closest hit, one question at a time.
//!
//! A [`Search`] walks the objects of a scene in order. It asks for the
//! crossings of the ray with an object's box, and only where the ray passes
//! the slab test for the solutions of that object's triangles, one by one.
//! The caller computes what is asked for and hands it back. Answered from
//! the same slabs and solutions, a finished search has found what
//! [`Scene::intersect`] returns.
use vstd::prelude::*;
use crate::aabb::Slabs;
use crate::ray::{Hit, Ray};
use crate::scalar::Scalar;
use crate::scene::{Scene, SceneView};
use crate::triangle::Solution;

verus! {

/// What a search needs to know next.
#[derive(Debug, Clone, Copy, PartialEq, Eq, Structural)]
pub enum Probe {
    /// The crossings of the ray with the box of object `object`.
    Bounds { object: usize },
    /// The solution of the ray and triangle `triangle` of the mesh, which
    /// belongs to object `object`.
    Triangle { object: usize, triangle: usize },
    /// Nothing: the search is over.
    Finished,
}

/// The state of a search.
pub struct SearchView {
    pub ray: Ray,
    pub t_min: Scalar,
    pub t_max: Scalar,
    /// The object that is being looked at; the number of objects when the
    /// search is over.
    pub object: nat,
    /// Inside that object's box: the number of its triangles already tested.
    pub offset: nat,
    /// The ray passed the slab test of the object and a triangle is next.
    pub inside: bool,
    /// The closest hit on the objects before `object`.
    pub closest: Option<Hit>,
    /// The closest hit on the first `offset` triangles of `object`.
    pub local: Option<Hit>,
}

impl SearchView {
    /// The state in which a search starts.
    pub open spec fn initial(ray: Ray, t_min: Scalar, t_max: Scalar) -> SearchView {
        SearchView { ray, t_min, t_max, object: 0, offset: 0, inside: false, closest: None, local: None }
    }

    /// The state is one that a search of `scene` can be in.
    pub open spec fn wf(self, scene: SceneView) -> bool {
        &&& self.object <= scene.objects.len()
        &&& self.inside ==> {
            &&& self.object < scene.objects.len()
            &&& self.offset < scene.objects[self.object as int].count()
        }
        &&& !self.inside ==> self.offset == 0 && self.local is None
        &&& self.closest matches Some(h) ==> scene.reports(h, self.ray, self.t_min, self.t_max)
        &&& self.local matches Some(h) ==> scene.reports(h, self.ray, self.t_min, self.t_max)
    }

    /// What the search needs to know next.
    pub open spec fn probe(self, scene: SceneView) -> Probe {
        if self.object >= scene.objects.len() {
            Probe::Finished
        } else if self.inside {
            Probe::Triangle {
                object: self.object as usize,
                triangle: (scene.objects[self.object as int].start() + self.offset) as usize,
            }
        } else {
            Probe::Bounds { object: self.object as usize }
        }
    }

    /// The state after the crossings of the ray with the current object's
    /// box have become known. A ray that fails the slab test, or an object
    /// without triangles, sends the search on to the next object.
    pub open spec fn after_bounds(self, scene: SceneView, slabs: Slabs) -> SearchView {
        if slabs.overlap(self.t_min, self.t_max) && scene.objects[self.object as int].count() > 0 {
            SearchView { inside: true, offset: 0, local: None, ..self }
        } else {
            SearchView { object: self.object + 1, ..self }
        }
    }

    /// The state after the solution of the ray and the current triangle has
    /// become known. After the last triangle of an object the closest hit
    /// on that object is merged into the closest so far.
    pub open spec fn after_triangle(self, scene: SceneView, solution: Solution) -> SearchView {
        let object = scene.objects[self.object as int];
        let hit = scene.mesh.triangle((object.start() + self.offset) as int).intersect_spec(
            self.ray,
            self.t_min,
            self.t_max,
            solution,
        );
        let local = Hit::nearer(self.local, hit);
        if self.offset + 1 < object.count() {
            SearchView { offset: self.offset + 1, local, ..self }
        } else {
            SearchView {
                object: self.object + 1,
                offset: 0,
                inside: false,
                closest: Hit::nearer(self.closest, local),
                local: None,
                ..self
            }
        }
    }

    /// The search has so far been answered from `slabs` and `solutions`:
    /// what it has found is what those give for the part it has seen.
    pub open spec fn agrees(self, scene: SceneView, slabs: Seq<Slabs>, solutions: Seq<Solution>) -> bool {
        &&& self.closest == scene.closest_among(
            self.ray,
            self.t_min,
            self.t_max,
            slabs,
            solutions,
            self.object,
        )
        &&& self.inside ==> {
            &&& slabs[self.object as int].overlap(self.t_min, self.t_max)
            &&& self.local == scene.objects[self.object as int].closest_among(
                scene.mesh,
                self.ray,
                self.t_min,
                self.t_max,
                solutions,
                self.offset,
            )
        }
    }
}

/// A search for the closest hit of one ray in one scene.
#[derive(Debug, Clone, Copy)]
pub struct Search {
    ray: Ray,
    t_min: Scalar,
    t_max: Scalar,
    object: usize,
    offset: usize,
    inside: bool,
    closest: Option<Hit>,
    local: Option<Hit>,
}

impl View for Search {
    type V = SearchView;

    closed spec fn view(&self) -> SearchView {
        SearchView {
            ray: self.ray,
            t_min: self.t_min,
            t_max: self.t_max,
            object: self.object as nat,
            offset: self.offset as nat,
            inside: self.inside,
            closest: self.closest,
            local: self.local,
        }
    }
}

impl Search {
    /// Starts the search for the closest hit of `ray` between `t_min` and
    /// `t_max`, both exclusive.
    pub fn begin(ray: Ray, t_min: Scalar, t_max: Scalar) -> (s: Search)
        ensures
            s@ == SearchView::initial(ray, t_min, t_max),
    {
        Search { ray, t_min, t_max, object: 0, offset: 0, inside: false, closest: None, local: None }
    }

    /// The ray that is searched for.
    pub fn ray(&self) -> (r: Ray)
        ensures
            r == self@.ray,
    {
        self.ray
    }

    /// What the search needs to know next.
    pub fn probe(&self, scene: &Scene) -> (p: Probe)
        requires
            scene@.well_formed(),
            self@.wf(scene@),
        ensures
            p == self@.probe(scene@),
    {
        let objects = scene.objects();
        if self.object >= objects.len() {
            Probe::Finished
        } else if self.inside {
            assert(scene@.objects[self.object as int].fits(scene@.mesh));
            Probe::Triangle {
                object: self.object,
                triangle: objects[self.object].triangle_start_index() + self.offset,
            }
        } else {
            Probe::Bounds { object: self.object }
        }
    }

    /// Takes the answer to a [`Probe::Bounds`]: the crossings of the ray
    /// with the box of the current object.
    ///
    /// Where the ray fails the slab test, the search moves on to the next
    /// object and asks for none of this object's triangles.
    pub fn bounds_known(&mut self, scene: &Scene, slabs: &Slabs)
        requires
            scene@.well_formed(),
            old(self)@.wf(scene@),
            old(self)@.probe(scene@) is Bounds,
        ensures
            final(self)@ == old(self)@.after_bounds(scene@, *slabs),
            final(self)@.wf(scene@),
    {
        let object = &scene.objects()[self.object];
        if object.aabb().intersect(slabs, self.t_min, self.t_max) && object.triangle_count() > 0 {
            self.inside = true;
            self.offset = 0;
            self.local = None;
        } else {
            self.object = self.object + 1;
        }
    }

    /// Takes the answer to a [`Probe::Triangle`]: the solution of the ray
    /// and the current triangle.
    pub fn triangle_known(&mut self, scene: &Scene, solution: &Solution)
        requires
            scene@.well_formed(),
            old(self)@.wf(scene@),
            old(self)@.probe(scene@) is Triangle,
        ensures
            final(self)@ == old(self)@.after_triangle(scene@, *solution),
            final(self)@.wf(scene@),
    {
        let object = &scene.objects()[self.object];
        let mesh = scene.triangle_mesh();
        assert(scene@.objects[self.object as int].fits(scene@.mesh));
        let k: usize = object.triangle_start_index() + self.offset;
        assert(scene@.mesh.holds(scene@.mesh.triangles[k as int]));
        let hit = mesh.get_triangle_from_index(k).intersect(&self.ray, self.t_min, self.t_max, solution);
        let local = Hit::keep_nearer(self.local, hit);
        if self.offset + 1 < object.triangle_count() {
            self.offset = self.offset + 1;
            self.local = local;
        } else {
            self.closest = Hit::keep_nearer(self.closest, local);
            self.local = None;
            self.inside = false;
            self.offset = 0;
            self.object = self.object + 1;
        }
    }

    /// The closest hit on the objects that the search has left behind: once
    /// the search is over, the closest hit in the scene.
    pub fn closest(&self) -> (hit: Option<Hit>)
        ensures
            hit == self@.closest,
    {
        self.closest
    }
}

/// A search that has just begun agrees with any slabs and solutions.
pub proof fn lemma_initial_search_agrees(
    scene: SceneView,
    ray: Ray,
    t_min: Scalar,
    t_max: Scalar,
    slabs: Seq<Slabs>,
    solutions: Seq<Solution>,
)
    ensures
        SearchView::initial(ray, t_min, t_max).wf(scene),
        SearchView::initial(ray, t_min, t_max).agrees(scene, slabs, solutions),
{
}

/// A search that agrees with `slabs` and `solutions` still does after it
/// was answered from them.
pub proof fn lemma_answered_search_agrees(s: SearchView, scene: SceneView, slabs: Seq<Slabs>, solutions: Seq<Solution>)
    requires
        scene.well_formed(),
        slabs.len() == scene.objects.len(),
        solutions.len() == scene.mesh.triangles.len(),
        s.wf(scene),
        s.agrees(scene, slabs, solutions),
    ensures
        s.probe(scene) matches Probe::Bounds { object } ==> s.after_bounds(scene, slabs[object as int]).agrees(
            scene,
            slabs,
            solutions,
        ),
        s.probe(scene) matches Probe::Triangle { object, triangle } ==> s.after_triangle(
            scene,
            solutions[triangle as int],
        ).agrees(scene, slabs, solutions),
{
    if s.object < scene.objects.len() {
        assert(scene.objects[s.object as int].fits(scene.mesh));
    }
}

/// A finished search that was answered from `slabs` and `solutions` has
/// found the closest hit that those give for the whole scene.
pub proof fn lemma_finished_search_is_intersection(
    s: SearchView,
    scene: SceneView,
    slabs: Seq<Slabs>,
    solutions: Seq<Solution>,
)
    requires
        s.wf(scene),
        s.agrees(scene, slabs, solutions),
        s.probe(scene) is Finished,
    ensures
        s.closest == scene.intersect_spec(s.ray, s.t_min, s.t_max, slabs, solutions),
{
}

/// A ray that fails the slab test of an object is asked about none of that
/// object's triangles: the next question is about a later object, if any.
pub proof fn lemma_culled_object_is_skipped(s: SearchView, scene: SceneView, slabs: Slabs)
    requires
        scene.well_formed(),
        s.wf(scene),
        s.probe(scene) is Bounds,
        !slabs.overlap(s.t_min, s.t_max),
    ensures
        s.after_bounds(scene, slabs).closest == s.closest,
        s.after_bounds(scene, slabs).probe(scene) matches Probe::Bounds { object } ==> object > s.object,
        !(s.after_bounds(scene, slabs).probe(scene) is Triangle),
{
}

} // verus!
