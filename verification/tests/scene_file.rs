use rusticvision::assembly::{assemble, SceneError};
use rusticvision::camera::CameraBuilder;
use rusticvision::data_structures::GPUData;
use rusticvision::gpu::{pixel_words, random_words, workgroups, GPUSceneRenderer, Renderer};
use rusticvision::material::Material;
use rusticvision::parser::face::ParseError;
use rusticvision::parser::objects::extract_parts_obj;
use rusticvision::scalar::Scalar;
use rusticvision::scene::Scene;
use rusticvision::triangle::TriangleIndex;
use rusticvision::trianglemesh::TriangleMesh;
use rusticvision::vec3::Vec3;

fn s(x: f32) -> Scalar {
    Scalar::from_bits(x.to_bits())
}

fn v(x: f32, y: f32, z: f32) -> Vec3 {
    Vec3::new(s(x), s(y), s(z))
}

fn bytes(list: &[&str]) -> Vec<Vec<u8>> {
    list.iter().map(|n| n.as_bytes().to_vec()).collect()
}

const CUBE: &str = "# Blender 3.5.1\nmtllib test.mtl\no Floor\nv -1.0 0.0 5.0\nv 1.0 0.0 5.0\nv 0.0 2.0 5.0\nvn 0.0 0.0 -1.0\nvt 0.5 0.5\ns 0\nusemtl Grey\nf 1/1/1 2/1/1 3/1/1\no Lamp\nv 0.0 4.0 5.0\nusemtl Light\nf 1/1/1 2/1/1 4/1/1\nf 2/1/1 3/1/1 4/1/1";

#[test]
fn lines_are_sorted_by_what_they_are_about() {
    let parts = extract_parts_obj(CUBE.as_bytes()).unwrap();
    assert_eq!(
        String::from_utf8(parts.vertex_data).unwrap(),
        "v -1.0 0.0 5.0\nv 1.0 0.0 5.0\nv 0.0 2.0 5.0\nvn 0.0 0.0 -1.0\nvt 0.5 0.5\nv 0.0 4.0 5.0\n"
    );
    assert_eq!(String::from_utf8(parts.material_file_name).unwrap(), "test.mtl\n");
    assert_eq!(parts.object_names, bytes(&["Floor", "Lamp"]));
    assert_eq!(
        parts.object_faces,
        bytes(&["usemtl Grey\nf 1/1/1 2/1/1 3/1/1\n", "usemtl Light\nf 1/1/1 2/1/1 4/1/1\nf 2/1/1 3/1/1 4/1/1\n"])
    );
}

#[test]
fn empty_text_has_no_parts() {
    let parts = extract_parts_obj(b"").unwrap();
    assert!(parts.vertex_data.is_empty());
    assert!(parts.material_file_name.is_empty());
    assert!(parts.object_names.is_empty());
    assert!(parts.object_faces.is_empty());
}

#[test]
fn face_before_any_object_is_an_error() {
    assert_eq!(extract_parts_obj(b"v 1 2 3\nf 1/1/1 2/1/1 3/1/1\no A").err(), Some(ParseError::NoObject { position: 8 }));
    assert_eq!(extract_parts_obj(b"usemtl A\n").err(), Some(ParseError::NoObject { position: 0 }));
}

#[test]
fn object_declared_again_keeps_its_place_and_loses_its_faces() {
    let parts = extract_parts_obj(b"o A\nf 1//1 2//1 3//1\no B\nf 4//1 5//1 6//1\no A\nf 7//1 8//1 9//1\r\n").unwrap();
    assert_eq!(parts.object_names, bytes(&["A", "B"]));
    assert_eq!(parts.object_faces, bytes(&["f 7//1 8//1 9//1\r\n", "f 4//1 5//1 6//1\n"]));
}

#[test]
fn scene_is_put_together_from_its_parts() {
    let parts = extract_parts_obj(CUBE.as_bytes()).unwrap();
    let identifiers: Vec<String> = parts.object_names.iter().map(|n| String::from_utf8_lossy(n).into_owned()).collect();
    let positions = vec![v(-1.0, 0.0, 5.0), v(1.0, 0.0, 5.0), v(0.0, 2.0, 5.0), v(0.0, 4.0, 5.0)];
    let normals = vec![v(0.0, 0.0, -1.0)];
    let materials = vec![Material::default(), Material { emissive_color: v(1.0, 1.0, 1.0), ..Material::default() }];
    let scene = assemble(&identifiers, &parts.object_faces, &bytes(&["Grey", "Light"]), positions, normals, materials)
        .ok()
        .unwrap();
    assert!(scene.is_well_formed());
    assert!(scene.triangle_mesh().is_well_formed());
    assert_eq!(
        scene.triangle_mesh().triangle_indices(),
        &[
            TriangleIndex::new((0, 1, 2), 0, 0),
            TriangleIndex::new((0, 1, 3), 0, 1),
            TriangleIndex::new((1, 2, 3), 0, 1),
        ]
    );
    let objects = scene.objects();
    assert_eq!(objects.len(), 2);
    assert_eq!(objects[0].identifier, "Floor");
    assert_eq!((objects[0].triangle_start_index(), objects[0].triangle_count()), (0, 1));
    assert_eq!(objects[1].identifier, "Lamp");
    assert_eq!((objects[1].triangle_start_index(), objects[1].triangle_count()), (1, 2));
    assert_eq!(objects[0].aabb().bounds(), (v(-1.0, 0.0, 5.0), v(1.0, 2.0, 5.0)));
    assert_eq!(objects[1].aabb().bounds(), (v(-1.0, 0.0, 5.0), v(1.0, 4.0, 5.0)));
}

#[test]
fn assembly_reports_what_is_wrong() {
    let names = vec!["A".to_string(), "B".to_string()];
    let faces = bytes(&["f 1//1 2//1 3//1\n", "usemtl Gold\nf 1//1 2//1 3//1\n"]);
    let positions = vec![v(0.0, 0.0, 0.0), v(1.0, 0.0, 0.0), v(0.0, 1.0, 0.0)];
    let normals = vec![v(0.0, 0.0, 1.0)];
    let materials = vec![Material::default()];
    assert_eq!(
        assemble(&names, &faces, &bytes(&["Grey"]), positions.clone(), normals.clone(), materials.clone()).err(),
        Some(SceneError::Parse { object: 1, error: ParseError::UnknownMaterial { position: 7 } })
    );
    let faces = bytes(&["f 1//1 2//1 3//1\n", "f 1//1 2//1 4//1\n"]);
    assert_eq!(
        assemble(&names, &faces, &bytes(&["Grey"]), positions.clone(), normals.clone(), materials.clone()).err(),
        Some(SceneError::Reference { triangle: 1 })
    );
    let faces = bytes(&["f 1//2 2//1 3//1\n", "f 1//1 2//1 3//1\n"]);
    assert_eq!(
        assemble(&names, &faces, &bytes(&["Grey"]), positions.clone(), normals.clone(), materials.clone()).err(),
        Some(SceneError::Reference { triangle: 0 })
    );
    let faces = bytes(&["f 1//1 2//1 3//1\n", "f 1//1 2//1 3//1\n"]);
    assert_eq!(
        assemble(&names, &faces, &bytes(&["Grey"]), positions.clone(), normals.clone(), vec![]).err(),
        Some(SceneError::Reference { triangle: 0 })
    );
    assert!(assemble(&names, &faces, &bytes(&["Grey"]), positions, normals, materials).is_ok());
}

#[test]
fn device_is_handed_words() {
    assert_eq!(workgroups(512, 512), 512 * 512 / 145 + 1);
    assert_eq!(workgroups(1, 1), 1);
    assert_eq!(workgroups(145, 1), 2);
    assert_eq!(workgroups(0, 9), 1);
    assert_eq!(pixel_words(2, 3), vec![1.0f32.to_bits(); 24]);
    assert_eq!(random_words(0).len(), 0);
    let words = random_words(4096);
    assert_eq!(words.len(), 4096);
    assert!(words.iter().any(|&w| w != words[0]));
    let scene = Scene::new(TriangleMesh::new(vec![], vec![], vec![], vec![]), vec![]);
    let camera = CameraBuilder::new().with_position(v(7.0, 1.9, 0.0)).with_width(512).with_height(256).build();
    let mut renderer = GPUSceneRenderer::new(&camera, &scene);
    renderer.set_sample_count(250);
    renderer.set_recursion_depth(4);
    assert_eq!(renderer.camera().get_dimensions(), (512, 256));
    assert_eq!(renderer.scene().objects().len(), 0);
    let mut projection = [s(0.0); 16];
    let mut view = [s(0.0); 16];
    for i in 0..16 {
        projection[i] = s(i as f32);
        view[i] = s(-(i as f32) - 1.0);
    }
    let words = renderer.camera_data_buffer(&projection, &view);
    let mut expected = vec![7.0f32.to_bits(), 1.9f32.to_bits(), 0.0f32.to_bits(), 0];
    expected.extend((0..16).map(|i| (i as f32).to_bits()));
    expected.extend((0..16).map(|i| (-(i as f32) - 1.0).to_bits()));
    expected.extend([512, 256, 250, 4]);
    assert_eq!(words, expected);
}

#[test]
fn device_image_is_turned_upright() {
    let renderer = Renderer::new(GPUData::new(), (2, 3));
    assert_eq!(renderer.image_resolution(), (2, 3));
    assert!(renderer.gpu_data().triangles.is_empty());
    let channel = |byte: f32| s((byte + 0.5) / 255.0);
    let data: Vec<[Scalar; 4]> = (0..6)
        .map(|i| {
            let i = i as f32 * 10.0;
            [channel(i), channel(i + 1.0), channel(i + 2.0), s(f32::NAN)]
        })
        .collect();
    let film = renderer.to_image(&data);
    assert_eq!(film.dimensions(), (2, 3));
    assert_eq!(
        film.into_raw(),
        vec![40, 41, 42, 50, 51, 52, 20, 21, 22, 30, 31, 32, 0, 1, 2, 10, 11, 12]
    );
    let grey = Renderer::new(GPUData::new(), (1, 2));
    let film = grey.to_image(&[[s(0.5), s(0.5), s(0.5), s(1.0)], [s(5.0), s(-1.0), s(0.25), s(1.0)]]);
    assert_eq!(film.into_raw(), vec![255, 0, 63, 127, 127, 127]);
}

#[test]
fn faces_are_read_as_records() {
    use_records();
}

fn use_records() {
    let names = bytes(&["Grey", "Light"]);
    assert_eq!(
        rusticvision::parser::triangles::parse_triangles(b"usemtl Light\nf 1/1/1 2/1/1 3/1/1\nf 3//2 2//2 1//2", &names),
        Ok(vec![
            rusticvision::data_structures::TriangleData::new(0, 1, 2, 0, 1),
            rusticvision::data_structures::TriangleData::new(2, 1, 0, 1, 1),
        ])
    );
    assert_eq!(
        rusticvision::parser::triangles::parse_triangles(b"usemtl Gold\n", &names),
        Err(ParseError::UnknownMaterial { position: 7 })
    );
    let parts = extract_parts_obj(CUBE.as_bytes()).unwrap();
    let (objects, triangles) =
        rusticvision::assembly::get_object_and_triangle_data(&parts.object_faces, &names).ok().unwrap();
    assert_eq!(
        objects,
        vec![
            rusticvision::data_structures::ObjectData::without_bounding_box(0, 1),
            rusticvision::data_structures::ObjectData::without_bounding_box(1, 2),
        ]
    );
    assert_eq!(
        triangles,
        vec![
            rusticvision::data_structures::TriangleData::new(0, 1, 2, 0, 0),
            rusticvision::data_structures::TriangleData::new(0, 1, 3, 0, 1),
            rusticvision::data_structures::TriangleData::new(1, 2, 3, 0, 1),
        ]
    );
    assert_eq!(
        rusticvision::assembly::get_object_and_triangle_data(&bytes(&["f 1//1 2//1 3//1", "f 1"]), &names).err(),
        Some(SceneError::Parse { object: 1, error: ParseError::Syntax { position: 3 } })
    );
    let index = TriangleIndex::new((7, 8, 9), 10, 11);
    assert_eq!(
        rusticvision::parser::triangles::to_record(&index),
        rusticvision::data_structures::TriangleData::new(7, 8, 9, 10, 11)
    );
}

#[test]
fn objects_are_read_into_a_mesh_that_has_triangles() {
    let mut mesh = TriangleMesh::new(
        vec![v(0.0, 0.0, 0.0), v(1.0, 0.0, 0.0), v(0.0, 1.0, 0.0)],
        vec![v(0.0, 0.0, 1.0)],
        vec![Material::default()],
        vec![TriangleIndex::new((2, 1, 0), 0, 0)],
    );
    let names = vec!["A".to_string(), "B".to_string()];
    let bad = bytes(&["f 1//1 2//1 3//1\n", "f 1//1 2//1 9//1\n"]);
    assert_eq!(
        rusticvision::assembly::get_objects(&mut mesh, &names, &bad, &bytes(&[])).err(),
        Some(SceneError::Reference { triangle: 1 })
    );
    assert_eq!(mesh.triangle_indices().len(), 1);
    let faces = bytes(&["f 1//1 2//1 3//1\nf 3//1 2//1 1//1", ""]);
    let objects = rusticvision::assembly::get_objects(&mut mesh, &names, &faces, &bytes(&[])).ok().unwrap();
    assert_eq!(
        mesh.triangle_indices(),
        &[
            TriangleIndex::new((2, 1, 0), 0, 0),
            TriangleIndex::new((0, 1, 2), 0, 0),
            TriangleIndex::new((2, 1, 0), 0, 0),
        ]
    );
    assert_eq!(objects.len(), 2);
    assert_eq!((objects[0].triangle_start_index(), objects[0].triangle_count()), (1, 2));
    assert_eq!((objects[1].triangle_start_index(), objects[1].triangle_count()), (3, 0));
    assert_eq!(objects[0].aabb().bounds(), (v(0.0, 0.0, 0.0), v(1.0, 1.0, 0.0)));
    assert!(objects[0].check(&mesh) && objects[1].check(&mesh));
}

fn worth(text: &str, span: (usize, usize)) -> f32 {
    text[span.0..span.1].parse().unwrap()
}

fn vertex_data(text: &str) -> (Vec<[f32; 3]>, Vec<[f32; 3]>, Vec<[f32; 2]>) {
    let spans = rusticvision::parser::vertices::parse_vertex_data(text.as_bytes()).unwrap();
    let triple = |n: &Vec<(usize, usize)>| {
        assert_eq!(n.len(), 3);
        [worth(text, n[0]), worth(text, n[1]), worth(text, n[2])]
    };
    let pair = |n: &Vec<(usize, usize)>| {
        assert_eq!(n.len(), 2);
        [worth(text, n[0]), worth(text, n[1])]
    };
    (
        spans.positions.iter().map(triple).collect(),
        spans.normals.iter().map(triple).collect(),
        spans.tex_coords.iter().map(pair).collect(),
    )
}

#[test]
fn parse_single_vertex_position_test() {
    let position = "v 0.0 0.0 0.0";

    let (p, n, m) = vertex_data(position);
    assert_eq!(p.len(), 1);
    assert_eq!(n.len(), 0);
    assert_eq!(m.len(), 0);

    let expected_pos = vec![[0.0, 0.0, 0.0]];
    assert_eq!(p, expected_pos);
}

#[test]
fn parse_single_vertex_normal_test() {
    let normal = "vn 1.0 0.0 0.0";

    let (p, n, m) = vertex_data(normal);
    assert_eq!(p.len(), 0);
    assert_eq!(n.len(), 1);
    assert_eq!(m.len(), 0);

    let expected_normal = vec![[1.0, 0.0, 0.0]];
    assert_eq!(n, expected_normal);
}

#[test]
fn parse_single_vertex_texture_test() {
    let texture = "vt 0.0 0.0";

    let (p, n, m) = vertex_data(texture);
    assert_eq!(p.len(), 0);
    assert_eq!(n.len(), 0);
    assert_eq!(m.len(), 1);

    let expected_texture = vec![[0.0, 0.0]];
    assert_eq!(m, expected_texture);
}

#[test]
fn parse_multiple_vertex_data_test() {
    let vertex_data_text = "v 1.000000 1.000000 -1.000000
v 1.000000 -1.000000 -1.000000
vn -0.0000 1.0000 -0.0000
vn -0.0000 -0.0000 1.0000
vt 0.625000 0.500000
vt 0.375000 0.500000";

    let (p, n, m) = vertex_data(vertex_data_text);
    assert_eq!(p.len(), 2);
    assert_eq!(n.len(), 2);
    assert_eq!(m.len(), 2);

    let expected_pos = vec![[1.000000, 1.000000, -1.000000], [1.000000, -1.000000, -1.000000]];
    assert_eq!(p, expected_pos);

    let expected_normal = vec![[-0.0000, 1.0000, -0.0000], [-0.0000, -0.0000, 1.0000]];

    assert_eq!(n, expected_normal);

    let expected_texture = vec![[0.625000, 0.500000], [0.375000, 0.500000]];

    assert_eq!(m, expected_texture);
}

fn materials_of(text: &str) -> (Vec<Material>, Vec<String>) {
    let lines = rusticvision::parser::materials::materials(text.as_bytes()).unwrap();
    let mut materials = Vec::new();
    let mut names = Vec::new();
    for material in &lines {
        let properties: Vec<rusticvision::material::MaterialProperty> = material
            .properties
            .iter()
            .map(|p| {
                let color = || v(worth(text, p.numbers[0]), worth(text, p.numbers[1]), worth(text, p.numbers[2]));
                let number = || s(worth(text, p.numbers[0]));
                match p.kind {
                    rusticvision::parser::materials::PropertyKind::AmbientColor => {
                        rusticvision::material::MaterialProperty::AmbientColor(color())
                    }
                    rusticvision::parser::materials::PropertyKind::DiffuseColor => {
                        rusticvision::material::MaterialProperty::DiffuseColor(color())
                    }
                    rusticvision::parser::materials::PropertyKind::SpecularColor => {
                        rusticvision::material::MaterialProperty::SpecularColor(color())
                    }
                    rusticvision::parser::materials::PropertyKind::EmissiveColor => {
                        rusticvision::material::MaterialProperty::EmissiveColor(color())
                    }
                    rusticvision::parser::materials::PropertyKind::SpecularHighlight => {
                        rusticvision::material::MaterialProperty::SpecularHighlight(number())
                    }
                    rusticvision::parser::materials::PropertyKind::Transparency => {
                        rusticvision::material::MaterialProperty::Transparency(number())
                    }
                    rusticvision::parser::materials::PropertyKind::IndexOfRefraction => {
                        rusticvision::material::MaterialProperty::IndexOfRefraction(number())
                    }
                    rusticvision::parser::materials::PropertyKind::IlluminationModel => {
                        rusticvision::material::MaterialProperty::IlluminationModel(p.model)
                    }
                }
            })
            .collect();
        names.push(text[material.name.0..material.name.1].to_string());
        materials.push(rusticvision::material::material_from_properties(&properties));
    }
    (materials, names)
}

#[test]
fn single_materials_test() {
    let input = "# Blender 3.5.1 MTL File: 'None'
# www.blender.org

newmtl Material
Ns 250.000000
Ka 1.000000 1.000000 1.000000
Kd 0.800000 0.800000 0.800000
Ks 0.500000 0.500000 0.500000
Ke 0.000000 0.000000 0.000000
Ni 1.450000
d 1.000000
illum 2";

    let expected_materials = vec![Material {
        ambient_color: v(1.0, 1.0, 1.0),
        diffuse_color: v(0.8, 0.8, 0.8),
        specular_color: v(0.5, 0.5, 0.5),
        specular_highlight: s(250.0),
        emissive_color: v(0.0, 0.0, 0.0),
        transparency: s(1.0),
        index_of_refraction: s(1.45),
    }];

    let (mats, _) = materials_of(input);
    assert_eq!(expected_materials, mats);
}

#[test]
fn multiple_materials_test() {
    let input = "newmtl Material
Ns 250.000000
Ka 1.000000 1.000000 1.000000
Kd 0.800000 0.800000 0.800000
Ks 0.500000 0.500000 0.500000
Ke 0.000000 0.000000 0.000000
Ni 1.450000
d 1.000000
illum 2
newmtl Red
Ns 250.000000
Ka 1.000000 0.000000 0.000000
Kd 1.000000 0.000000 0.000000
Ks 0.500000 0.500000 0.500000
Ke 0.000000 0.000000 0.000000
Ni 1.450000
d 1.000000
illum 2";
    let expected_materials = vec![
        Material {
            ambient_color: v(1.0, 1.0, 1.0),
            diffuse_color: v(0.8, 0.8, 0.8),
            specular_color: v(0.5, 0.5, 0.5),
            specular_highlight: s(250.0),
            emissive_color: v(0.0, 0.0, 0.0),
            transparency: s(1.0),
            index_of_refraction: s(1.45),
        },
        Material {
            ambient_color: v(1.0, 0.0, 0.0),
            diffuse_color: v(1.0, 0.0, 0.0),
            specular_color: v(0.5, 0.5, 0.5),
            specular_highlight: s(250.0),
            emissive_color: v(0.0, 0.0, 0.0),
            transparency: s(1.0),
            index_of_refraction: s(1.45),
        },
    ];
    let (mats, names) = materials_of(input);
    assert_eq!(expected_materials, mats);
    assert_eq!(names, vec!["Material".to_string(), "Red".to_string()]);
}

#[test]
fn vertex_lines_end_where_no_line_follows() {
    let parse = |text: &str| rusticvision::parser::vertices::parse_vertex_data(text.as_bytes());
    let data = parse("v 1 2 3 4\r\nvn 1e2 -.5 +7.\t 8\nvt 0.5 nan\n# rest\nv 1 2 3").unwrap();
    assert_eq!(data.positions, vec![vec![(2, 3), (4, 5), (6, 7)]]);
    assert_eq!(data.normals, vec![vec![(14, 17), (18, 21), (22, 25)]]);
    assert_eq!(data.tex_coords, vec![vec![(32, 35), (36, 39)]]);
    assert_eq!(data.end, 39);
    assert_eq!(parse("v 1 2 3 \nv 4 5 6").unwrap().end, 7);
    assert_eq!(parse("").err(), Some(ParseError::Syntax { position: 0 }));
    assert_eq!(parse("f 1/1/1").err(), Some(ParseError::Syntax { position: 0 }));
    assert_eq!(parse("v x").err(), Some(ParseError::Syntax { position: 0 }));
    assert_eq!(parse("v 1 2").err(), Some(ParseError::TooFewNumbers { position: 0 }));
    assert_eq!(parse("v 1 2 3\nvt 1").err(), Some(ParseError::TooFewNumbers { position: 8 }));
    assert_eq!(parse("v 1 2 3e").err(), Some(ParseError::Syntax { position: 6 }));
    assert_eq!(parse("v 1 2 3\nvn 1ex 2 3").err(), Some(ParseError::Syntax { position: 11 }));
}

#[test]
fn material_library_is_read_line_by_line() {
    let parse = |text: &str| rusticvision::parser::materials::materials(text.as_bytes());
    assert_eq!(parse("").unwrap().len(), 0);
    assert_eq!(parse("# nothing\n\n").unwrap().len(), 0);
    let one = parse("newmtl A\nKd 1 2 3 junk\nillum 7\nmap_Kd wood.png\nnewmtl B\r\nd 0.5\n").unwrap();
    assert_eq!(one.len(), 2);
    assert_eq!(one[0].name, (7, 8));
    assert_eq!(one[0].properties.len(), 1);
    assert_eq!(one[0].properties[0].numbers, vec![(12, 13), (14, 15), (16, 17)]);
    assert_eq!(one[1].name, (54, 56));
    assert_eq!(one[1].properties[0].kind, rusticvision::parser::materials::PropertyKind::Transparency);
    let two = parse("newmtl A\nNs 5\nillum 12\nKa 1 1 1").unwrap();
    assert_eq!(two[0].properties.len(), 3);
    assert_eq!(two[0].properties[1].model, 12);
    assert_eq!(parse("# no line ending").err(), Some(ParseError::Syntax { position: 16 }));
    assert_eq!(parse("newmtl A").err(), Some(ParseError::Syntax { position: 8 }));
    assert_eq!(parse("newmtl A\nmap_Kd wood.png\n").err(), Some(ParseError::Syntax { position: 9 }));
    assert_eq!(parse("newmtl A\nKd 1 2\n").err(), Some(ParseError::TooFewNumbers { position: 9 }));
    assert_eq!(parse("newmtl A\nillum x\n").err(), Some(ParseError::Syntax { position: 15 }));
    assert_eq!(parse("newmtl A\nillum 99999999999\n").err(), Some(ParseError::Syntax { position: 15 }));
    assert_eq!(parse("newmtl A\nNs 1e\n").err(), Some(ParseError::Syntax { position: 12 }));
}
