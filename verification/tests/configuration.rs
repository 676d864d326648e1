use rusticvision::camera::{Camera, CameraBuilder};
use rusticvision::data_structures::{
    calculate_bounding_boxes, BoundingBoxData, CameraData, GPUData, MaterialData, ObjectData, RenderData,
    TriangleData, Vec3Data,
};
use rusticvision::material::{material_from_properties, Material, MaterialProperty};
use rusticvision::object::Object;
use rusticvision::prelude::{ConfigError, RayTracer};
use rusticvision::scalar::Scalar;
use rusticvision::scene::Scene;
use rusticvision::triangle::TriangleIndex;
use rusticvision::trianglemesh::TriangleMesh;
use rusticvision::vec3::Vec3;

fn s(x: f32) -> Scalar {
    Scalar::from_bits(x.to_bits())
}

fn v(x: f32, y: f32, z: f32) -> Vec3 {
    Vec3::new(s(x), s(y), s(z))
}

#[test]
fn camera_defaults() {
    let camera = CameraBuilder::new().build();
    assert_eq!(camera.position(), v(0.0, 0.0, 0.0));
    assert_eq!(camera.target(), v(0.0, 0.0, 1.0));
    assert_eq!(camera.clipping(), (s(0.1), s(100.0)));
    assert_eq!(camera.vertical_fov(), s(39.6));
    assert_eq!(camera.get_dimensions(), (800, 600));
    assert!(camera.is_valid());
    let other = Camera::default();
    assert_eq!(other.get_dimensions(), (800, 600));
    assert_eq!(other.target(), v(0.0, 0.0, 1.0));
}

#[test]
fn camera_builder_keeps_what_is_set() {
    let camera = CameraBuilder::default()
        .with_position(v(7.0, 1.9, 0.0))
        .with_target(v(0.0, 1.9, 0.0))
        .with_z_near(s(0.5))
        .with_z_far(s(50.0))
        .with_vertical_fov(s(60.0))
        .with_width(512)
        .with_height(256)
        .build();
    assert_eq!(camera.position(), v(7.0, 1.9, 0.0));
    assert_eq!(camera.target(), v(0.0, 1.9, 0.0));
    assert_eq!(camera.clipping(), (s(0.5), s(50.0)));
    assert_eq!(camera.vertical_fov(), s(60.0));
    assert_eq!(camera.get_dimensions(), (512, 256));
    assert_eq!(camera.get_ray(v(0.0, 1.0, 0.0)).origin, v(7.0, 1.9, 0.0));
    assert_eq!(camera.get_ray(v(0.0, 1.0, 0.0)).direction, v(0.0, 1.0, 0.0));
}

#[test]
fn camera_validity() {
    let ok = CameraBuilder::new();
    assert!(!ok.with_z_near(s(0.0)).build().is_valid());
    assert!(!ok.with_z_near(s(-1.0)).build().is_valid());
    assert!(!ok.with_z_far(s(0.1)).build().is_valid());
    assert!(!ok.with_z_far(s(f32::NAN)).build().is_valid());
    assert!(!ok.with_vertical_fov(s(0.0)).build().is_valid());
    assert!(!ok.with_vertical_fov(s(180.0)).build().is_valid());
    assert!(ok.with_vertical_fov(s(179.9)).build().is_valid());
    assert!(!ok.with_width(0).build().is_valid());
    assert!(!ok.with_height(0).build().is_valid());
    assert!(ok.with_width(1).with_height(1).build().is_valid());
}

#[test]
fn pixels_are_listed_column_by_column() {
    let camera = CameraBuilder::new().with_width(3).with_height(2).build();
    let listed: Vec<(u32, u32)> = (0..6).map(|i| camera.pixel_at(i)).collect();
    assert_eq!(listed, vec![(0, 0), (0, 1), (1, 0), (1, 1), (2, 0), (2, 1)]);
    for (i, &(x, y)) in listed.iter().enumerate() {
        assert_eq!(camera.pixel_index(x, y), i);
    }
}

#[test]
fn plan_needs_directory_and_file() {
    assert_eq!(RayTracer::new().plan().err(), Some(ConfigError::MissingDirectory));
    assert_eq!(RayTracer::default().obj_file("test.obj").plan().err(), Some(ConfigError::MissingDirectory));
    assert_eq!(RayTracer::new().directory("test").plan().err(), Some(ConfigError::MissingObjFile));
    assert!(RayTracer::new().file("test", "test.obj").plan().is_ok());
}

#[test]
fn plan_fills_in_the_defaults() {
    let plan = RayTracer::new().directory("test").obj_file("test.obj").plan().ok().unwrap();
    assert_eq!(plan.directory, "test");
    assert_eq!(plan.obj_file, "test.obj");
    assert_eq!((plan.width, plan.height), (800, 600));
    assert_eq!(plan.samples, 1);
    assert_eq!(plan.bounces, 1);
    assert_eq!(plan.camera.position(), v(0.0, 0.0, 0.0));
    assert_eq!(plan.camera.target(), v(0.0, 0.0, 0.0));
    assert_eq!(plan.camera.vertical_fov(), s(39.6));
    assert_eq!(plan.camera.clipping(), (s(0.1), s(1000.0)));
    assert_eq!(plan.camera.get_dimensions(), (800, 600));
}

#[test]
fn plan_keeps_what_is_set() {
    let plan = RayTracer::new()
        .directory("test")
        .obj_file("test.obj")
        .camera_position(s(7.0), s(1.9), s(0.0))
        .camera_target(s(0.0), s(1.9), s(0.0))
        .camera_vertical_fov(s(45.0))
        .camera_clipping(s(1.0), s(10.0))
        .resolution(512, 512)
        .sample_count(250)
        .recursion_depth(4)
        .plan()
        .ok()
        .unwrap();
    assert_eq!((plan.width, plan.height), (512, 512));
    assert_eq!(plan.samples, 250);
    assert_eq!(plan.bounces, 4);
    assert_eq!(plan.camera.position(), v(7.0, 1.9, 0.0));
    assert_eq!(plan.camera.target(), v(0.0, 1.9, 0.0));
    assert_eq!(plan.camera.vertical_fov(), s(45.0));
    assert_eq!(plan.camera.clipping(), (s(1.0), s(10.0)));
    assert_eq!(plan.camera.get_dimensions(), (512, 512));
}

#[test]
fn material_default_is_black_with_refraction_one() {
    let m = Material::default();
    assert_eq!(m.ambient_color, v(0.0, 0.0, 0.0));
    assert_eq!(m.diffuse_color, v(0.0, 0.0, 0.0));
    assert_eq!(m.specular_color, v(0.0, 0.0, 0.0));
    assert_eq!(m.emissive_color, v(0.0, 0.0, 0.0));
    assert_eq!(m.specular_highlight, s(0.0));
    assert_eq!(m.transparency, s(0.0));
    assert_eq!(m.index_of_refraction, s(1.0));
    let n = Material::new(v(1.0, 1.0, 1.0), v(0.8, 0.8, 0.8), v(0.5, 0.5, 0.5), s(250.0), v(0.0, 0.0, 0.0), s(1.0), s(1.45));
    assert_eq!(n.diffuse_color, v(0.8, 0.8, 0.8));
    assert_eq!(n.index_of_refraction, s(1.45));
    let d = MaterialData::from_material(&n);
    assert_eq!(d, MaterialData::new(v(1.0, 1.0, 1.0), v(0.8, 0.8, 0.8), v(0.5, 0.5, 0.5), v(0.0, 0.0, 0.0), s(250.0), s(1.45), s(1.0)));
}

#[test]
fn records_keep_their_fields() {
    let t = TriangleData::new(1, 2, 3, 4, 5);
    assert_eq!((t.v0_index, t.v1_index, t.v2_index, t.normal_index, t.material_index), (1, 2, 3, 4, 5));
    assert_eq!(t.to_index(), TriangleIndex::new((1, 2, 3), 4, 5));
    let r = RenderData::new(640, 480, 16, 3);
    assert_eq!((r.width, r.height, r.samples, r.bounces), (640, 480, 16, 3));
    let o = ObjectData::without_bounding_box(7, 9);
    assert_eq!(o, ObjectData::new(v(0.0, 0.0, 0.0), v(0.0, 0.0, 0.0), 7, 9));
    assert_eq!(Vec3Data::new(v(1.0, 2.0, 3.0)).data, v(1.0, 2.0, 3.0));
    let c = CameraData::new([s(1.0); 16], [s(2.0); 16], v(1.0, 2.0, 3.0));
    assert_eq!(c.inv_view[15], s(2.0));
    let mut g = GPUData::new();
    assert!(g.triangles.is_empty() && g.objects.is_empty() && g.materials.is_empty());
    assert_eq!(g.render_data, RenderData::new(0, 0, 0, 0));
    assert_eq!(g.camera.inv_projection, [s(0.0); 16]);
    g.set_render(r);
    g.set_camera(c);
    g.set_triangles(vec![t]);
    g.set_objects(vec![o]);
    g.set_vertex_positions(vec![Vec3Data::new(v(1.0, 2.0, 3.0))]);
    g.set_vertex_normals(vec![Vec3Data::new(v(0.0, 0.0, 1.0))]);
    g.set_materials(vec![MaterialData::from_material(&Material::default())]);
    assert_eq!(g.render_data, r);
    assert_eq!(g.camera.position, v(1.0, 2.0, 3.0));
    assert_eq!(g.triangles, vec![t]);
    assert_eq!(g.objects, vec![o]);
    assert_eq!(g.vertex_positions.len(), 1);
    assert_eq!(g.vertex_normals[0].data, v(0.0, 0.0, 1.0));
    assert_eq!(g.materials.len(), 1);
}

#[test]
fn bounding_boxes_of_records() {
    let positions: Vec<Vec3Data> = [
        v(-1.0, -1.0, 5.0), v(1.0, -1.0, 5.0), v(0.0, 1.0, 4.0), v(3.0, 3.0, 3.0), v(9.0, -2.0, 0.5),
    ].iter().map(|&p| Vec3Data::new(p)).collect();
    let triangles = vec![TriangleData::new(0, 1, 2, 0, 0), TriangleData::new(2, 3, 4, 0, 0)];
    let objects = vec![
        ObjectData::without_bounding_box(0, 1),
        ObjectData::without_bounding_box(0, 2),
        ObjectData::without_bounding_box(2, 0),
    ];
    let boxes = calculate_bounding_boxes(&positions, &triangles, &objects);
    assert_eq!(
        boxes,
        vec![
            BoundingBoxData::new(v(-1.0, -1.0, 4.0), v(1.0, 1.0, 5.0)),
            BoundingBoxData::new(v(-1.0, -2.0, 0.5), v(9.0, 3.0, 5.0)),
            BoundingBoxData::new(v(f32::INFINITY, f32::INFINITY, f32::INFINITY), v(f32::NEG_INFINITY, f32::NEG_INFINITY, f32::NEG_INFINITY)),
        ]
    );
}

#[test]
fn scene_as_words() {
    let red = Material { diffuse_color: v(0.5, 0.25, 0.125), emissive_color: v(1.0, 0.0, 2.0), ..Material::default() };
    let mesh = TriangleMesh::new(
        vec![v(-1.0, -1.0, 5.0), v(1.0, -1.0, 5.0), v(0.0, 1.0, 5.0)],
        vec![v(0.0, 0.0, -1.0)],
        vec![red],
        vec![TriangleIndex::new((0, 1, 2), 0, 0), TriangleIndex::new((2, 1, 0), 0, 0)],
    );
    let objects = vec![Object::new("a".to_string(), 0, 2, &mesh), Object::new("b".to_string(), 1, 1, &mesh)];
    let scene = Scene::new(mesh, objects);
    let bits = |x: f32| x.to_bits();
    assert_eq!(
        scene.gpu_vertex_pos_data(),
        vec![
            [bits(-1.0), bits(-1.0), bits(5.0), 0],
            [bits(1.0), bits(-1.0), bits(5.0), 0],
            [bits(0.0), bits(1.0), bits(5.0), 0],
        ]
    );
    assert_eq!(scene.gpu_triangle_normal_data(), vec![[bits(0.0), bits(0.0), bits(-1.0), 0]]);
    assert_eq!(scene.gpu_triangle_index_data(), vec![[0, 1, 2, 0, 0], [2, 1, 0, 0, 0]]);
    assert_eq!(
        scene.gpu_material_data(),
        vec![[bits(0.5), bits(0.25), bits(0.125), 0, bits(1.0), bits(0.0), bits(2.0), 0]]
    );
    assert_eq!(scene.gpu_object_data(), vec![2, 0, 0, 2, 1, 1, 1]);
    assert_eq!(
        scene.gpu_aabb_data(),
        vec![[bits(-1.0), bits(-1.0), bits(5.0), 0, bits(1.0), bits(1.0), bits(5.0), 0]; 2]
    );
}

#[test]
fn material_takes_the_last_property_of_each_kind() {
    assert_eq!(material_from_properties(&[]), Material::default());
    let m = material_from_properties(&[
        MaterialProperty::SpecularHighlight(s(250.0)),
        MaterialProperty::AmbientColor(v(1.0, 1.0, 1.0)),
        MaterialProperty::DiffuseColor(v(0.1, 0.1, 0.1)),
        MaterialProperty::DiffuseColor(v(0.8, 0.8, 0.8)),
        MaterialProperty::SpecularColor(v(0.5, 0.5, 0.5)),
        MaterialProperty::EmissiveColor(v(0.0, 0.0, 0.0)),
        MaterialProperty::IndexOfRefraction(s(1.45)),
        MaterialProperty::Transparency(s(1.0)),
        MaterialProperty::IlluminationModel(2),
    ]);
    assert_eq!(
        m,
        Material::new(v(1.0, 1.0, 1.0), v(0.8, 0.8, 0.8), v(0.5, 0.5, 0.5), s(250.0), v(0.0, 0.0, 0.0), s(1.0), s(1.45))
    );
    let n = material_from_properties(&[MaterialProperty::EmissiveColor(v(1.0, 0.0, 0.0))]);
    assert_eq!(n, Material { emissive_color: v(1.0, 0.0, 0.0), ..Material::default() });
}
