use rusticvision::aabb::{BoundingBox, Slabs};
use rusticvision::material::Material;
use rusticvision::object::Object;
use rusticvision::ray::{Hit, Ray};
use rusticvision::scalar::Scalar;
use rusticvision::scene::Scene;
use rusticvision::search::{Probe, Search};
use rusticvision::triangle::{Solution, Triangle, TriangleIndex};
use rusticvision::trianglemesh::TriangleMesh;
use rusticvision::vec3::Vec3;

fn s(x: f32) -> Scalar {
    Scalar::from_bits(x.to_bits())
}

fn v(x: f32, y: f32, z: f32) -> Vec3 {
    Vec3::new(s(x), s(y), s(z))
}

fn f(x: Scalar) -> f32 {
    f32::from_bits(x.to_bits())
}

fn a(p: Vec3) -> [f32; 3] {
    [f(p.x), f(p.y), f(p.z)]
}

fn sub(p: [f32; 3], q: [f32; 3]) -> [f32; 3] {
    [p[0] - q[0], p[1] - q[1], p[2] - q[2]]
}

fn cross(p: [f32; 3], q: [f32; 3]) -> [f32; 3] {
    [p[1] * q[2] - p[2] * q[1], p[2] * q[0] - p[0] * q[2], p[0] * q[1] - p[1] * q[0]]
}

fn dot(p: [f32; 3], q: [f32; 3]) -> f32 {
    p[0] * q[0] + p[1] * q[1] + p[2] * q[2]
}

fn solve(triangle: &Triangle, ray: &Ray) -> Solution {
    let (v0, v1, v2) = triangle.vertex_positions;
    let (o, d) = (a(ray.origin), a(ray.direction));
    let e0 = sub(a(v1), a(v0));
    let e1 = sub(a(v2), a(v0));
    let h = cross(d, e1);
    let det = dot(e0, h);
    let inv = 1.0 / det;
    let sv = sub(o, a(v0));
    let u = inv * dot(sv, h);
    let q = cross(sv, e0);
    let vv = inv * dot(d, q);
    let t = inv * dot(e1, q);
    Solution {
        determinant: s(det),
        u: s(u),
        v: s(vv),
        u_plus_v: s(u + vv),
        distance: s(t),
        point: v(o[0] + d[0] * t, o[1] + d[1] * t, o[2] + d[2] * t),
    }
}

fn slabs(bounds: &BoundingBox, ray: &Ray) -> Slabs {
    let (lo, hi) = bounds.bounds();
    let (o, d) = (a(ray.origin), a(ray.direction));
    let (lo, hi) = (a(lo), a(hi));
    let t0 = [(lo[0] - o[0]) * (1.0 / d[0]), (lo[1] - o[1]) * (1.0 / d[1]), (lo[2] - o[2]) * (1.0 / d[2])];
    let t1 = [(hi[0] - o[0]) * (1.0 / d[0]), (hi[1] - o[1]) * (1.0 / d[1]), (hi[2] - o[2]) * (1.0 / d[2])];
    Slabs { t0: v(t0[0], t0[1], t0[2]), t1: v(t1[0], t1[1], t1[2]) }
}

fn all_slabs(scene: &Scene, ray: &Ray) -> Vec<Slabs> {
    scene.objects().iter().map(|o| slabs(&o.aabb(), ray)).collect()
}

fn all_solutions(scene: &Scene, ray: &Ray) -> Vec<Solution> {
    let mesh = scene.triangle_mesh();
    (0..mesh.triangle_indices().len()).map(|k| solve(&mesh.get_triangle_from_index(k), ray)).collect()
}

fn lazy(scene: &Scene, ray: Ray, t_min: Scalar, t_max: Scalar, asked: &mut Vec<Probe>) -> Option<Hit> {
    let mut search = Search::begin(ray, t_min, t_max);
    loop {
        let probe = search.probe(scene);
        asked.push(probe);
        match probe {
            Probe::Bounds { object } => {
                let answer = slabs(&scene.objects()[object].aabb(), &ray);
                search.bounds_known(scene, &answer);
            }
            Probe::Triangle { triangle, .. } => {
                let answer = solve(&scene.triangle_mesh().get_triangle_from_index(triangle), &ray);
                search.triangle_known(scene, &answer);
            }
            Probe::Finished => return search.closest(),
        }
    }
}

/// Two parallel triangles in front of the origin, at z = 5 and z = 3, and
/// one far behind it, each an object of its own.
fn three_objects() -> Scene {
    let positions = vec![
        v(-1.0, -1.0, 5.0),
        v(1.0, -1.0, 5.0),
        v(0.0, 1.0, 5.0),
        v(-1.0, -1.0, 3.0),
        v(1.0, -1.0, 3.0),
        v(0.0, 1.0, 3.0),
        v(-1.0, -1.0, -100.0),
        v(1.0, -1.0, -100.0),
        v(0.0, 1.0, -100.0),
    ];
    let normals = vec![v(0.0, 0.0, -1.0)];
    let materials = vec![Material::default(), Material::default()];
    let triangles = vec![
        TriangleIndex::new((0, 1, 2), 0, 0),
        TriangleIndex::new((3, 4, 5), 0, 1),
        TriangleIndex::new((6, 7, 8), 0, 0),
    ];
    let mesh = TriangleMesh::new(positions, normals, materials, triangles);
    assert!(mesh.is_well_formed());
    let objects = vec![
        Object::new("far".to_string(), 0, 1, &mesh),
        Object::new("near".to_string(), 1, 1, &mesh),
        Object::new("behind".to_string(), 2, 1, &mesh),
    ];
    let scene = Scene::new(mesh, objects);
    assert!(scene.is_well_formed());
    scene
}

#[test]
fn triangle_is_hit_head_on() {
    let scene = three_objects();
    let ray = Ray::new(v(0.0, 0.0, 0.0), v(0.0, 0.0, 1.0));
    let triangle = scene.triangle_mesh().get_triangle_from_index(0);
    let solution = solve(&triangle, &ray);
    let hit = triangle.intersect(&ray, s(0.01), s(100.0), &solution).unwrap();
    assert_eq!(f(hit.distance), 5.0);
    assert_eq!(a(hit.hit_point), [0.0, 0.0, 5.0]);
    assert_eq!(hit.incoming, ray);
    assert_eq!(hit.triangle_index, TriangleIndex::new((0, 1, 2), 0, 0));
    assert_eq!(hit.normal_index(), 0);
    assert_eq!(hit.material_index(), 0);
    assert_eq!(a(hit.normal(scene.triangle_mesh())), [0.0, 0.0, -1.0]);
    assert_eq!(hit.material(scene.triangle_mesh()), Material::default());
}

#[test]
fn hit_lies_strictly_between_the_bounds() {
    let scene = three_objects();
    let ray = Ray::new(v(0.0, 0.0, 0.0), v(0.0, 0.0, 1.0));
    let triangle = scene.triangle_mesh().get_triangle_from_index(0);
    let solution = solve(&triangle, &ray);
    assert!(triangle.intersect(&ray, s(4.9), s(5.1), &solution).is_some());
    assert!(triangle.intersect(&ray, s(5.0), s(100.0), &solution).is_none());
    assert!(triangle.intersect(&ray, s(0.01), s(5.0), &solution).is_none());
    assert!(triangle.intersect(&ray, s(f32::NAN), s(100.0), &solution).is_none());
}

#[test]
fn ray_along_the_plane_misses() {
    let scene = three_objects();
    let triangle = scene.triangle_mesh().get_triangle_from_index(0);
    let ray = Ray::new(v(-5.0, 0.0, 5.0), v(1.0, 0.0, 0.0));
    let solution = solve(&triangle, &ray);
    assert_eq!(f(solution.determinant), 0.0);
    assert!(triangle.intersect(&ray, s(0.01), s(100.0), &solution).is_none());
    let nearly = Solution { determinant: s(1.0e-7), u: s(0.2), v: s(0.2), u_plus_v: s(0.4), distance: s(1.0), point: v(0.0, 0.0, 0.0) };
    assert!(triangle.intersect(&ray, s(0.01), s(100.0), &nearly).is_none());
    let enough = Solution { determinant: s(-1.2e-7), ..nearly };
    assert!(triangle.intersect(&ray, s(0.01), s(100.0), &enough).is_some());
}

#[test]
fn barycentric_coordinates_decide() {
    let scene = three_objects();
    let triangle = scene.triangle_mesh().get_triangle_from_index(0);
    let ray = Ray::new(v(0.0, 0.0, 0.0), v(0.0, 0.0, 1.0));
    let inside = Solution { determinant: s(4.0), u: s(0.25), v: s(0.5), u_plus_v: s(0.75), distance: s(5.0), point: v(0.0, 0.0, 5.0) };
    assert!(triangle.intersect(&ray, s(0.01), s(100.0), &inside).is_some());
    for bad in [
        Solution { u: s(-0.001), ..inside },
        Solution { u: s(1.001), ..inside },
        Solution { u: s(f32::NAN), ..inside },
        Solution { v: s(-0.001), ..inside },
        Solution { u_plus_v: s(1.001), ..inside },
        Solution { distance: s(f32::NAN), ..inside },
    ] {
        assert!(triangle.intersect(&ray, s(0.01), s(100.0), &bad).is_none());
    }
    for edge in [
        Solution { u: s(0.0), ..inside },
        Solution { u: s(1.0), ..inside },
        Solution { v: s(0.0), ..inside },
        Solution { u_plus_v: s(1.0), ..inside },
        Solution { v: s(f32::NAN), ..inside },
    ] {
        assert!(triangle.intersect(&ray, s(0.01), s(100.0), &edge).is_some());
    }
}

#[test]
fn closest_hit_prefers_the_smaller_distance_and_the_first_on_ties() {
    let ray = Ray::new(v(0.0, 0.0, 0.0), v(0.0, 0.0, 1.0));
    let near = Hit::new(v(0.0, 0.0, 3.0), s(3.0), ray, TriangleIndex::new((3, 4, 5), 0, 1));
    let far = Hit::new(v(0.0, 0.0, 5.0), s(5.0), ray, TriangleIndex::new((0, 1, 2), 0, 0));
    let tie = Hit::new(v(0.0, 0.0, 3.0), s(3.0), ray, TriangleIndex::new((6, 7, 8), 0, 0));
    assert_eq!(near.closest_hit(far), near);
    assert_eq!(far.closest_hit(near), near);
    assert_eq!(near.closest_hit(tie), near);
    assert_eq!(tie.closest_hit(near), tie);
    assert_eq!(Hit::keep_nearer(None, Some(far)), Some(far));
    assert_eq!(Hit::keep_nearer(Some(far), None), Some(far));
    assert_eq!(Hit::keep_nearer(Some(far), Some(near)), Some(near));
    assert_eq!(Hit::keep_nearer(None, None), None);
    assert_eq!(near.outgoing_ray(v(1.0, 0.0, 0.0)), Ray::new(v(0.0, 0.0, 3.0), v(1.0, 0.0, 0.0)));
}

#[test]
fn slab_test_accepts_a_ray_through_the_box() {
    let bounds = BoundingBox::new(v(-1.0, -1.0, 4.0), v(1.0, 1.0, 6.0));
    let through = Ray::new(v(0.0, 0.0, 0.0), v(0.01, 0.02, 1.0));
    assert!(bounds.intersect(&slabs(&bounds, &through), s(0.01), s(100.0)));
    assert!(!bounds.intersect(&slabs(&bounds, &through), s(0.01), s(3.9)));
    assert!(!bounds.intersect(&slabs(&bounds, &through), s(6.5), s(100.0)));
    let past = Ray::new(v(0.0, 0.0, 0.0), v(1.0, 0.02, 1.0));
    assert!(!bounds.intersect(&slabs(&bounds, &past), s(0.01), s(100.0)));
    let away = Ray::new(v(0.0, 0.0, 0.0), v(0.01, 0.02, -1.0));
    assert!(!bounds.intersect(&slabs(&bounds, &away), s(0.01), s(100.0)));
}

#[test]
fn slab_test_accepts_a_tangent_ray() {
    let bounds = BoundingBox::new(v(-1.0, -1.0, 4.0), v(1.0, 1.0, 6.0));
    let touching = Slabs { t0: v(2.0, 1.0, 1.5), t1: v(3.0, 2.0, 2.0) };
    assert!(bounds.intersect(&touching, s(0.01), s(100.0)));
    let apart = Slabs { t0: v(2.0, 1.0, 1.5), t1: v(3.0, 2.0, 1.9999999) };
    assert!(!bounds.intersect(&apart, s(0.01), s(100.0)));
    assert!(bounds.intersect(&touching, s(2.0), s(2.0)));
    assert_eq!(bounds.min(), v(-1.0, -1.0, 4.0));
    assert_eq!(bounds.max(), v(1.0, 1.0, 6.0));
}

#[test]
fn scene_reports_the_closest_of_all_objects() {
    let scene = three_objects();
    let ray = Ray::new(v(0.0, 0.0, 0.0), v(0.0, 0.0, 1.0));
    let hit = scene
        .intersect(&ray, s(0.01), s(100.0), &all_slabs(&scene, &ray), &all_solutions(&scene, &ray))
        .unwrap();
    assert_eq!(f(hit.distance), 3.0);
    assert_eq!(hit.material_index(), 1);
    let hit = scene
        .intersect(&ray, s(3.5), s(100.0), &all_slabs(&scene, &ray), &all_solutions(&scene, &ray))
        .unwrap();
    assert_eq!(f(hit.distance), 5.0);
    let back = Ray::new(v(0.0, 0.0, 0.0), v(0.0, 0.0, -1.0));
    assert_eq!(
        scene.intersect(&back, s(0.01), s(100.0), &all_slabs(&scene, &back), &all_solutions(&scene, &back)),
        None
    );
    let hit = scene
        .intersect(&back, s(0.01), s(1000.0), &all_slabs(&scene, &back), &all_solutions(&scene, &back))
        .unwrap();
    assert_eq!(f(hit.distance), 100.0);
}

#[test]
fn object_behind_its_box_is_not_looked_at() {
    let scene = three_objects();
    let ray = Ray::new(v(0.0, 0.0, 0.0), v(0.0, 0.0, 1.0));
    let solutions = all_solutions(&scene, &ray);
    let object = &scene.objects()[0];
    let missing = Slabs { t0: v(1.0, 1.0, 9.0), t1: v(2.0, 2.0, 8.0) };
    assert_eq!(object.intersect(scene.triangle_mesh(), &ray, s(0.01), s(100.0), &missing, &solutions), None);
    let real = slabs(&object.aabb(), &ray);
    let hit = object.intersect(scene.triangle_mesh(), &ray, s(0.01), s(100.0), &real, &solutions).unwrap();
    assert_eq!(f(hit.distance), 5.0);
}

#[test]
fn search_finds_what_the_scene_reports() {
    let scene = three_objects();
    for direction in [v(0.0, 0.0, 1.0), v(0.0, 0.0, -1.0), v(0.3, 0.1, 1.0), v(1.0, 0.0, 0.2), v(0.1, -0.15, 1.0)] {
        for t_max in [s(100.0), s(4.0), s(1000.0)] {
            let ray = Ray::new(v(0.0, 0.0, 0.0), direction);
            let mut asked = Vec::new();
            let found = lazy(&scene, ray, s(0.01), t_max, &mut asked);
            let expected =
                scene.intersect(&ray, s(0.01), t_max, &all_slabs(&scene, &ray), &all_solutions(&scene, &ray));
            assert_eq!(found, expected);
            assert_eq!(asked.last(), Some(&Probe::Finished));
        }
    }
}

#[test]
fn search_skips_the_triangles_of_a_culled_object() {
    let scene = three_objects();
    let ray = Ray::new(v(0.0, 0.0, 0.0), v(0.0, 0.0, 1.0));
    let mut asked = Vec::new();
    let found = lazy(&scene, ray, s(0.01), s(100.0), &mut asked).unwrap();
    assert_eq!(f(found.distance), 3.0);
    assert_eq!(
        asked,
        vec![
            Probe::Bounds { object: 0 },
            Probe::Triangle { object: 0, triangle: 0 },
            Probe::Bounds { object: 1 },
            Probe::Triangle { object: 1, triangle: 1 },
            Probe::Bounds { object: 2 },
            Probe::Finished,
        ]
    );
}

#[test]
fn scene_without_objects_is_never_hit() {
    let mesh = TriangleMesh::new(vec![], vec![], vec![], vec![]);
    let scene = Scene::new(mesh, vec![]);
    assert!(scene.is_well_formed());
    let ray = Ray::new(v(0.0, 0.0, 0.0), v(0.0, 0.0, 1.0));
    assert_eq!(scene.intersect(&ray, s(0.01), s(100.0), &[], &[]), None);
    let mut asked = Vec::new();
    assert_eq!(lazy(&scene, ray, s(0.01), s(100.0), &mut asked), None);
    assert_eq!(asked, vec![Probe::Finished]);
}

#[test]
fn object_without_triangles_has_the_empty_box_and_no_hit() {
    let mesh = TriangleMesh::new(vec![v(0.0, 0.0, 1.0)], vec![v(0.0, 0.0, -1.0)], vec![], vec![]);
    let object = Object::new("nothing".to_string(), 0, 0, &mesh);
    assert_eq!(a(object.aabb().min()), [f32::INFINITY; 3]);
    assert_eq!(a(object.aabb().max()), [f32::NEG_INFINITY; 3]);
    assert_eq!(object.triangle_start_index(), 0);
    assert_eq!(object.triangle_count(), 0);
    let ray = Ray::new(v(0.0, 0.0, 0.0), v(0.2, 0.3, 1.0));
    let crossing = slabs(&object.aabb(), &ray);
    assert_eq!(object.intersect(&mesh, &ray, s(0.01), s(100.0), &crossing, &[]), None);
    let scene = Scene::new(mesh, vec![object]);
    let mut asked = Vec::new();
    assert_eq!(lazy(&scene, ray, s(0.01), s(100.0), &mut asked), None);
    assert_eq!(asked, vec![Probe::Bounds { object: 0 }, Probe::Finished]);
}

#[test]
fn bounding_box_holds_every_corner() {
    let scene = three_objects();
    let mesh = scene.triangle_mesh();
    for object in scene.objects() {
        let (lo, hi) = object.aabb().bounds();
        for k in object.triangle_start_index()..object.triangle_start_index() + object.triangle_count() {
            let (p, q, r) = mesh.get_triangle_from_index(k).vertex_positions;
            for corner in [p, q, r] {
                assert!(lo.x.le(corner.x) && corner.x.le(hi.x));
                assert!(lo.y.le(corner.y) && corner.y.le(hi.y));
                assert!(lo.z.le(corner.z) && corner.z.le(hi.z));
            }
        }
    }
    let far = &scene.objects()[0];
    assert_eq!(a(far.aabb().min()), [-1.0, -1.0, 5.0]);
    assert_eq!(a(far.aabb().max()), [1.0, 1.0, 5.0]);
    assert_eq!(far.identifier, "far");
}

#[test]
fn ill_formed_meshes_and_scenes_are_told_apart() {
    let bad = TriangleMesh::new(
        vec![v(0.0, 0.0, 0.0)],
        vec![v(0.0, 0.0, 1.0)],
        vec![Material::default()],
        vec![TriangleIndex::new((0, 0, 1), 0, 0)],
    );
    assert!(!bad.is_well_formed());
    assert!(!bad.holds(&TriangleIndex::new((0, 0, 0), 1, 0)));
    assert!(!bad.holds(&TriangleIndex::new((0, 0, 0), 0, 1)));
    assert!(bad.holds(&TriangleIndex::new((0, 0, 0), 0, 0)));
    let good = three_objects();
    let object = Object::new("all".to_string(), 0, 3, good.triangle_mesh());
    assert!(object.check(good.triangle_mesh()));
    assert!(!object.check(&bad));
    let scene = Scene::new(bad, vec![object]);
    assert!(!scene.is_well_formed());
    assert_eq!(scene.get_material(0), Some(&Material::default()));
    assert_eq!(scene.get_material(1), None);
}

#[test]
fn mesh_keeps_what_it_is_given() {
    let mut mesh = TriangleMesh::new(
        vec![v(1.0, 2.0, 3.0)],
        vec![v(0.0, 1.0, 0.0)],
        vec![Material::default()],
        vec![TriangleIndex::new((0, 0, 0), 0, 0)],
    );
    mesh.extend_triangle_indices(&[TriangleIndex::from_slice(&[0, 0, 0, 0]), TriangleIndex::from_slice(&[0, 0, 0, 0, 5, 9])]);
    assert_eq!(mesh.vertex_positions(), &[v(1.0, 2.0, 3.0)]);
    assert_eq!(mesh.triangle_normals(), &[v(0.0, 1.0, 0.0)]);
    assert_eq!(mesh.materials(), &[Material::default()]);
    assert_eq!(
        mesh.triangle_indices(),
        &[
            TriangleIndex::new((0, 0, 0), 0, 0),
            TriangleIndex::new((0, 0, 0), 0, 0),
            TriangleIndex::new((0, 0, 0), 0, 5),
        ]
    );
    assert_eq!(mesh.get_material(0), Some(&Material::default()));
    assert_eq!(mesh.get_material(3), None);
    let t = TriangleIndex::new((4, 5, 6), 7, 8);
    assert_eq!(t.vertex_indices(), (4, 5, 6));
    assert_eq!(t.normal_index(), 7);
    assert_eq!(t.material_index(), 8);
    assert_eq!(t.indices(), (4, 5, 6, 7, 8));
    assert_eq!(TriangleIndex::default(), TriangleIndex::new((0, 0, 0), 0, 0));
    let ray = Ray::new(v(1.0, 2.0, 0.0), v(0.0, 0.0, 1.0));
    let any = Solution { determinant: s(1.0), u: s(0.0), v: s(0.0), u_plus_v: s(0.0), distance: s(3.0), point: v(1.0, 2.0, 3.0) };
    let hit = mesh.intersect_triangle(&ray, &t_first(&mesh), s(0.01), s(100.0), &any).unwrap();
    assert_eq!(hit.triangle_index, t_first(&mesh));
    assert!(Ray::default().is_default());
    assert!(!ray.is_default());
    assert!(Ray::new(v(1.0, 1.0, 1.0), v(0.0, -0.0, 0.0)).is_default());
}

fn t_first(mesh: &TriangleMesh) -> TriangleIndex {
    mesh.triangle_indices()[0]
}
