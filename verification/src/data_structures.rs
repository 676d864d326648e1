//! The scene as flat records, the form in which it is handed to a compute
//! device: indices are 32-bit words, vectors are triples of scalars.
use vstd::prelude::*;
use crate::aabb::BoundingBox;
use crate::material::Material;
use crate::scalar::Scalar;
use crate::triangle::{Triangle, TriangleIndex};
use crate::vec3::Vec3;

verus! {

/// A vector of three scalars: a vertex position or a normal.
#[derive(Debug, Copy, Clone, PartialEq, Eq, Structural)]
pub struct Vec3Data {
    pub data: Vec3,
}

impl Vec3Data {
    pub fn new(data: Vec3) -> (v: Self)
        ensures
            v.data == data,
    {
        Self { data }
    }
}

/// A triangle: the indices of its three vertices, of its normal and of its
/// material.
#[derive(Debug, Copy, Clone, PartialEq, Eq, Structural)]
pub struct TriangleData {
    pub v0_index: u32,
    pub v1_index: u32,
    pub v2_index: u32,
    pub normal_index: u32,
    pub material_index: u32,
}

impl TriangleData {
    /// The five indices as those of a triangle of a mesh.
    pub open spec fn index_spec(self) -> (usize, usize, usize, usize, usize) {
        (
            self.v0_index as usize,
            self.v1_index as usize,
            self.v2_index as usize,
            self.normal_index as usize,
            self.material_index as usize,
        )
    }

    pub fn new(v0_index: u32, v1_index: u32, v2_index: u32, normal_index: u32, material_index: u32) -> (t: Self)
        ensures
            t == (TriangleData { v0_index, v1_index, v2_index, normal_index, material_index }),
    {
        Self { v0_index, v1_index, v2_index, normal_index, material_index }
    }

    /// The same triangle with indices of machine size.
    pub fn to_index(&self) -> (t: TriangleIndex)
        ensures
            t.indices_spec() == self.index_spec(),
    {
        TriangleIndex::new(
            (self.v0_index as usize, self.v1_index as usize, self.v2_index as usize),
            self.normal_index as usize,
            self.material_index as usize,
        )
    }
}

/// An object: a run of triangles and the box around them.
#[derive(Debug, Copy, Clone, PartialEq, Eq, Structural)]
pub struct ObjectData {
    pub aabb_min: Vec3,
    pub aabb_max: Vec3,
    pub triangle_start_index: u32,
    pub triangle_count: u32,
}

impl ObjectData {
    pub fn new(aabb_min: Vec3, aabb_max: Vec3, triangle_start_index: u32, triangle_count: u32) -> (o: Self)
        ensures
            o == (ObjectData { aabb_min, aabb_max, triangle_start_index, triangle_count }),
    {
        Self { aabb_min, aabb_max, triangle_start_index, triangle_count }
    }

    /// An object whose box is still to be computed: both corners zero.
    pub fn without_bounding_box(triangle_start_index: u32, triangle_count: u32) -> (o: Self)
        ensures
            o == (ObjectData {
                aabb_min: Vec3::zero(),
                aabb_max: Vec3::zero(),
                triangle_start_index,
                triangle_count,
            }),
    {
        Self::new(Vec3::zero(), Vec3::zero(), triangle_start_index, triangle_count)
    }
}

/// The two corners of a bounding box.
#[derive(Debug, Copy, Clone, PartialEq, Eq, Structural)]
pub struct BoundingBoxData {
    pub min: Vec3,
    pub max: Vec3,
}

impl BoundingBoxData {
    pub fn new(min: Vec3, max: Vec3) -> (b: Self)
        ensures
            b == (BoundingBoxData { min, max }),
    {
        Self { min, max }
    }
}

/// A material. The fields are those of [`Material`].
#[derive(Debug, Copy, Clone, PartialEq, Eq, Structural)]
pub struct MaterialData {
    pub ambient_color: Vec3,
    pub diffuse_color: Vec3,
    pub specular_color: Vec3,
    pub emission_color: Vec3,
    pub specular_highlight: Scalar,
    pub index_of_refraction: Scalar,
    pub transparency: Scalar,
}

impl MaterialData {
    /// The record of a material.
    pub open spec fn of(m: Material) -> MaterialData {
        MaterialData {
            ambient_color: m.ambient_color,
            diffuse_color: m.diffuse_color,
            specular_color: m.specular_color,
            emission_color: m.emissive_color,
            specular_highlight: m.specular_highlight,
            index_of_refraction: m.index_of_refraction,
            transparency: m.transparency,
        }
    }

    pub fn new(
        ambient_color: Vec3,
        diffuse_color: Vec3,
        specular_color: Vec3,
        emission_color: Vec3,
        specular_highlight: Scalar,
        index_of_refraction: Scalar,
        transparency: Scalar,
    ) -> (m: Self)
        ensures
            m == (MaterialData {
                ambient_color,
                diffuse_color,
                specular_color,
                emission_color,
                specular_highlight,
                index_of_refraction,
                transparency,
            }),
    {
        Self {
            ambient_color,
            diffuse_color,
            specular_color,
            emission_color,
            specular_highlight,
            index_of_refraction,
            transparency,
        }
    }

    /// The record of a material.
    pub fn from_material(material: &Material) -> (m: Self)
        ensures
            m == MaterialData::of(*material),
    {
        Self::new(
            material.ambient_color,
            material.diffuse_color,
            material.specular_color,
            material.emissive_color,
            material.specular_highlight,
            material.index_of_refraction,
            material.transparency,
        )
    }
}

/// A camera: the inverses of its projection and of its view, both as
/// sixteen scalars column by column, and its position.
#[derive(Debug, Copy, Clone)]
pub struct CameraData {
    pub inv_projection: [Scalar; 16],
    pub inv_view: [Scalar; 16],
    pub position: Vec3,
}

impl CameraData {
    pub fn new(inv_projection: [Scalar; 16], inv_view: [Scalar; 16], position: Vec3) -> (c: Self)
        ensures
            c.inv_projection == inv_projection,
            c.inv_view == inv_view,
            c.position == position,
    {
        Self { inv_projection, inv_view, position }
    }
}

/// The settings of a render: image size, samples per pixel and bounces.
#[derive(Debug, Copy, Clone, PartialEq, Eq, Structural)]
pub struct RenderData {
    pub width: u32,
    pub height: u32,
    pub samples: u32,
    pub bounces: u32,
}

impl RenderData {
    pub fn new(width: u32, height: u32, samples: u32, bounces: u32) -> (r: Self)
        ensures
            r == (RenderData { width, height, samples, bounces }),
    {
        Self { width, height, samples, bounces }
    }
}

/// The records of a scene as bytes, one slice for each kind.
pub struct GPUBytes<'data> {
    pub vertex_positions: &'data [u8],
    pub vertex_normals: &'data [u8],
    pub triangles: &'data [u8],
    pub objects: &'data [u8],
    pub materials: &'data [u8],
    pub camera: &'data [u8],
    pub render: &'data [u8],
}

/// All the records of a scene.
pub struct GPUData {
    pub vertex_positions: Vec<Vec3Data>,
    pub vertex_normals: Vec<Vec3Data>,
    pub triangles: Vec<TriangleData>,
    pub objects: Vec<ObjectData>,
    pub materials: Vec<MaterialData>,
    pub camera: CameraData,
    pub render_data: RenderData,
}

impl GPUData {
    /// No records, a camera of zeros and settings of zeros.
    pub fn new() -> (g: Self)
        ensures
            g.vertex_positions@.len() == 0,
            g.vertex_normals@.len() == 0,
            g.triangles@.len() == 0,
            g.objects@.len() == 0,
            g.materials@.len() == 0,
            g.camera.position == Vec3::zero(),
            forall|i: int| 0 <= i < 16 ==> g.camera.inv_projection[i] == Scalar::zero(),
            forall|i: int| 0 <= i < 16 ==> g.camera.inv_view[i] == Scalar::zero(),
            g.render_data == (RenderData { width: 0, height: 0, samples: 0, bounces: 0 }),
    {
        Self {
            vertex_positions: Vec::new(),
            vertex_normals: Vec::new(),
            triangles: Vec::new(),
            objects: Vec::new(),
            materials: Vec::new(),
            camera: CameraData::new([Scalar::zero(); 16], [Scalar::zero(); 16], Vec3::zero()),
            render_data: RenderData::new(0, 0, 0, 0),
        }
    }

    pub fn set_camera(&mut self, camera: CameraData)
        ensures
            *final(self) == (GPUData { camera, ..*old(self) }),
    {
        self.camera = camera;
    }

    pub fn set_render(&mut self, render_data: RenderData)
        ensures
            *final(self) == (GPUData { render_data, ..*old(self) }),
    {
        self.render_data = render_data;
    }

    pub fn set_vertex_positions(&mut self, vertex_positions: Vec<Vec3Data>)
        ensures
            *final(self) == (GPUData { vertex_positions, ..*old(self) }),
    {
        self.vertex_positions = vertex_positions;
    }

    pub fn set_vertex_normals(&mut self, vertex_normals: Vec<Vec3Data>)
        ensures
            *final(self) == (GPUData { vertex_normals, ..*old(self) }),
    {
        self.vertex_normals = vertex_normals;
    }

    pub fn set_triangles(&mut self, triangles: Vec<TriangleData>)
        ensures
            *final(self) == (GPUData { triangles, ..*old(self) }),
    {
        self.triangles = triangles;
    }

    pub fn set_objects(&mut self, objects: Vec<ObjectData>)
        ensures
            *final(self) == (GPUData { objects, ..*old(self) }),
    {
        self.objects = objects;
    }

    pub fn set_materials(&mut self, materials: Vec<MaterialData>)
        ensures
            *final(self) == (GPUData { materials, ..*old(self) }),
    {
        self.materials = materials;
    }
}

/// The objects' runs of triangles lie among the triangles, and the corners
/// of those triangles among the positions.
pub open spec fn records_fit(
    vertex_positions: Seq<Vec3Data>,
    triangles: Seq<TriangleData>,
    objects: Seq<ObjectData>,
) -> bool {
    forall|i: int|
        0 <= i < objects.len() ==> {
            &&& (#[trigger] objects[i]).triangle_start_index + objects[i].triangle_count <= triangles.len()
            &&& forall|k: int|
                objects[i].triangle_start_index <= k < objects[i].triangle_start_index + objects[i].triangle_count
                    ==> {
                    &&& (#[trigger] triangles[k]).v0_index < vertex_positions.len()
                    &&& triangles[k].v1_index < vertex_positions.len()
                    &&& triangles[k].v2_index < vertex_positions.len()
                }
        }
}

/// The corners and the indices of one triangle record.
fn corners(triangle: &TriangleData, vertex_positions: &[Vec3Data]) -> (t: Triangle)
    requires
        triangle.v0_index < vertex_positions@.len(),
        triangle.v1_index < vertex_positions@.len(),
        triangle.v2_index < vertex_positions@.len(),
    ensures
        t.vertex_positions == (
            vertex_positions@[triangle.v0_index as int].data,
            vertex_positions@[triangle.v1_index as int].data,
            vertex_positions@[triangle.v2_index as int].data,
        ),
{
    Triangle::new(
        (
            vertex_positions[triangle.v0_index as usize].data,
            vertex_positions[triangle.v1_index as usize].data,
            vertex_positions[triangle.v2_index as usize].data,
        ),
        Vec3::zero(),
        triangle.to_index(),
    )
}

/// The corners of the smallest box around the `count` triangle records from
/// `start` on.
pub open spec fn record_bounds(
    vertex_positions: Seq<Vec3Data>,
    triangles: Seq<TriangleData>,
    start: int,
    count: nat,
) -> (Vec3, Vec3)
    decreases count,
{
    if count == 0 {
        BoundingBox::empty_corners()
    } else {
        let t = triangles[start + count - 1];
        let (lo, hi) = record_bounds(vertex_positions, triangles, start, (count - 1) as nat);
        let v0 = vertex_positions[t.v0_index as int].data;
        let v1 = vertex_positions[t.v1_index as int].data;
        let v2 = vertex_positions[t.v2_index as int].data;
        (lo.min_spec(v0.min_spec(v1).min_spec(v2)), hi.max_spec(v0.max_spec(v1).max_spec(v2)))
    }
}

/// The bounding box of every object: the componentwise minimum and maximum
/// over the corners of its triangles. An object without triangles gets the
/// box that encloses nothing.
pub fn calculate_bounding_boxes(vertex_positions: &[Vec3Data], triangles: &[TriangleData], objects: &[ObjectData]) -> (boxes:
    Vec<BoundingBoxData>)
    requires
        records_fit(vertex_positions@, triangles@, objects@),
    ensures
        boxes@.len() == objects@.len(),
        forall|i: int|
            0 <= i < objects@.len() ==> ((#[trigger] boxes@[i]).min, boxes@[i].max) == record_bounds(
                vertex_positions@,
                triangles@,
                objects@[i].triangle_start_index as int,
                objects@[i].triangle_count as nat,
            ),
{
    let mut boxes: Vec<BoundingBoxData> = Vec::new();
    let mut i: usize = 0;
    while i < objects.len()
        invariant
            i <= objects@.len(),
            records_fit(vertex_positions@, triangles@, objects@),
            boxes@.len() == i,
            forall|j: int|
                0 <= j < i ==> ((#[trigger] boxes@[j]).min, boxes@[j].max) == record_bounds(
                    vertex_positions@,
                    triangles@,
                    objects@[j].triangle_start_index as int,
                    objects@[j].triangle_count as nat,
                ),
        decreases objects@.len() - i,
    {
        let object = objects[i];
        assert(object == objects@[i as int]);
        let start: usize = object.triangle_start_index as usize;
        let count: usize = object.triangle_count as usize;
        let total: usize = triangles.len();
        assert(start + count <= total);
        let mut bounding_box = BoundingBox::empty();
        let mut n: usize = 0;
        while n < count
            invariant
                n <= count,
                total == triangles@.len(),
                start + count <= total,
                i < objects@.len(),
                object == objects@[i as int],
                start == object.triangle_start_index,
                count == object.triangle_count,
                records_fit(vertex_positions@, triangles@, objects@),
                bounding_box.corners() == record_bounds(vertex_positions@, triangles@, start as int, n as nat),
            decreases count - n,
        {
            let triangle = triangles[start + n];
            assert(triangle == triangles@[start + n]);
            let corners = corners(&triangle, vertex_positions);
            bounding_box = bounding_box.grow(&corners);
            n += 1;
        }
        let (min, max) = bounding_box.bounds();
        boxes.push(BoundingBoxData::new(min, max));
        i += 1;
    }
    boxes
}

} // verus!
