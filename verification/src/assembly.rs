//! Putting a scene together from the parts of a scene file.
use vstd::prelude::*;
use crate::material::Material;
use crate::object::Object;
use crate::parser::face::ParseError;
use crate::data_structures::{ObjectData, TriangleData};
use crate::parser::triangles::{parse_triangle_indices, record_of, texts, to_records, triangles_from};
use crate::scene::Scene;
use crate::triangle::{indices_in_bounds, TriangleIndex};
use crate::trianglemesh::TriangleMesh;
use crate::vec3::{Normal, Position};

verus! {

/// Why no scene could be put together.
#[derive(Debug, Clone, Copy, PartialEq, Eq, Structural)]
pub enum SceneError {
    /// The faces of object `object` could not be read.
    Parse { object: usize, error: ParseError },
    /// Triangle `triangle` names a vertex, a normal or a material that
    /// does not exist.
    Reference { triangle: usize },
}

/// The triangles of the first `n` objects, one object after the other, or
/// the first object whose faces cannot be read and why.
pub open spec fn gathered_triangles(faces: Seq<Seq<u8>>, names: Seq<Seq<u8>>, n: nat) -> Result<
    Seq<(usize, usize, usize, usize, usize)>,
    (nat, ParseError),
>
    decreases n,
{
    if n == 0 {
        Ok(Seq::empty())
    } else {
        match gathered_triangles(faces, names, (n - 1) as nat) {
            Err(e) => Err(e),
            Ok(before) => match triangles_from(faces[n - 1], names, 0, 0) {
                Ok(own) => Ok(before + own),
                Err(e) => Err(((n - 1) as nat, e)),
            },
        }
    }
}

/// Where the triangles of object `i` start among all triangles: behind
/// those of the objects before it.
pub open spec fn object_start(faces: Seq<Seq<u8>>, names: Seq<Seq<u8>>, i: nat) -> nat {
    match gathered_triangles(faces, names, i) {
        Ok(before) => before.len(),
        Err(_) => 0,
    }
}

/// How many triangles object `i` has.
pub open spec fn object_count(faces: Seq<Seq<u8>>, names: Seq<Seq<u8>>, i: int) -> nat {
    match triangles_from(faces[i], names, 0, 0) {
        Ok(own) => own.len(),
        Err(_) => 0,
    }
}

/// The indices of each triangle of a list.
pub open spec fn indices_of(triangles: Seq<TriangleIndex>) -> Seq<(usize, usize, usize, usize, usize)> {
    triangles.map_values(|t: TriangleIndex| t.indices_spec())
}

/// Reads the faces of the objects of a scene file into a mesh and makes
/// the objects.
///
/// `object_faces` holds for each object the lines about its faces, and
/// `identifiers` its name; `material_names` holds the name of each
/// material. The faces of the objects are read in order and their
/// triangles appended to the mesh; each object is the run of its own
/// triangles, with the box around them. Where faces cannot be read, or a
/// triangle points outside the mesh, the mesh stays as it was.
pub fn get_objects(
    triangle_mesh: &mut TriangleMesh,
    identifiers: &Vec<String>,
    object_faces: &Vec<Vec<u8>>,
    material_names: &Vec<Vec<u8>>,
) -> (r: Result<Vec<Object>, SceneError>)
    requires
        identifiers@.len() == object_faces@.len(),
    ensures
        final(triangle_mesh)@.positions == old(triangle_mesh)@.positions,
        final(triangle_mesh)@.normals == old(triangle_mesh)@.normals,
        final(triangle_mesh)@.materials == old(triangle_mesh)@.materials,
        match r {
            Ok(objects) => {
                &&& gathered_triangles(texts(object_faces@), texts(material_names@), object_faces@.len())
                    matches Ok(all) && indices_of(final(triangle_mesh)@.triangles) == indices_of(
                    old(triangle_mesh)@.triangles,
                ) + all
                &&& final(triangle_mesh)@.triangles.take(old(triangle_mesh)@.triangles.len() as int) == old(
                    triangle_mesh,
                )@.triangles
                &&& objects@.len() == object_faces@.len()
                &&& forall|i: int|
                    0 <= i < objects@.len() ==> {
                        &&& (#[trigger] objects@[i]).name() == identifiers@[i]@
                        &&& objects@[i].start() == old(triangle_mesh)@.triangles.len() + object_start(
                            texts(object_faces@),
                            texts(material_names@),
                            i as nat,
                        )
                        &&& objects@[i].count() == object_count(texts(object_faces@), texts(material_names@), i)
                        &&& objects@[i].fits(final(triangle_mesh)@)
                        &&& objects@[i].encloses(final(triangle_mesh)@)
                    }
            },
            Err(SceneError::Parse { object, error }) => {
                &&& gathered_triangles(texts(object_faces@), texts(material_names@), object_faces@.len()) == Err::<
                    Seq<(usize, usize, usize, usize, usize)>,
                    _,
                >((object as nat, error))
                &&& final(triangle_mesh)@.triangles == old(triangle_mesh)@.triangles
            },
            Err(SceneError::Reference { triangle }) => {
                &&& gathered_triangles(texts(object_faces@), texts(material_names@), object_faces@.len())
                    matches Ok(all)
                &&& triangle < all.len()
                &&& !indices_in_bounds(
                    all[triangle as int],
                    old(triangle_mesh)@.positions.len(),
                    old(triangle_mesh)@.normals.len(),
                    old(triangle_mesh)@.materials.len(),
                )
                &&& forall|j: int|
                    0 <= j < triangle ==> indices_in_bounds(
                        #[trigger] all[j],
                        old(triangle_mesh)@.positions.len(),
                        old(triangle_mesh)@.normals.len(),
                        old(triangle_mesh)@.materials.len(),
                    )
                &&& final(triangle_mesh)@.triangles == old(triangle_mesh)@.triangles
            },
        },
{
    let (triangles, starts, counts) = match read_objects(object_faces, material_names) {
        Ok(read) => read,
        Err((object, error)) => {
            return Err(SceneError::Parse { object, error });
        },
    };
    let ghost all = indices_of(triangles@);
    match first_stray(triangle_mesh, &triangles) {
        Some(triangle) => {
            assert(all[triangle as int] == triangles@[triangle as int].indices_spec());
            assert forall|j: int| 0 <= j < triangle implies indices_in_bounds(
                #[trigger] all[j],
                triangle_mesh@.positions.len(),
                triangle_mesh@.normals.len(),
                triangle_mesh@.materials.len(),
            ) by {
                assert(triangle_mesh@.holds(triangles@[j]));
            }
            return Err(SceneError::Reference { triangle });
        },
        None => {},
    }
    let offset: usize = triangle_mesh.triangle_indices().len();
    triangle_mesh.extend_triangle_indices(triangles.as_slice());
    let total: usize = triangle_mesh.triangle_indices().len();
    proof {
        assert(indices_of(triangle_mesh@.triangles) =~= indices_of(old(triangle_mesh)@.triangles) + all);
        assert(triangle_mesh@.triangles.take(offset as int) =~= old(triangle_mesh)@.triangles);
        assert forall|k: int| offset <= k < total implies triangle_mesh@.holds(
            #[trigger] triangle_mesh@.triangles[k],
        ) by {
            assert(triangle_mesh@.triangles[k] == triangles@[k - offset]);
        }
    }
    let objects = build_objects(identifiers, &starts, &counts, offset, triangle_mesh);
    Ok(objects)
}

/// Builds the scene of a scene file: one mesh over the given positions,
/// normals and materials, with the triangles and the objects that
/// [`get_objects`] reads.
pub fn assemble(
    identifiers: &Vec<String>,
    object_faces: &Vec<Vec<u8>>,
    material_names: &Vec<Vec<u8>>,
    positions: Vec<Position>,
    normals: Vec<Normal>,
    materials: Vec<Material>,
) -> (r: Result<Scene, SceneError>)
    requires
        identifiers@.len() == object_faces@.len(),
    ensures
        match r {
            Ok(scene) => {
                &&& gathered_triangles(texts(object_faces@), texts(material_names@), object_faces@.len()) == Ok::<
                    _,
                    (nat, ParseError),
                >(indices_of(scene@.mesh.triangles))
                &&& scene@.mesh.positions == positions@
                &&& scene@.mesh.normals == normals@
                &&& scene@.mesh.materials == materials@
                &&& scene@.well_formed()
                &&& scene@.objects.len() == object_faces@.len()
                &&& forall|i: int|
                    0 <= i < scene@.objects.len() ==> {
                        &&& (#[trigger] scene@.objects[i]).name() == identifiers@[i]@
                        &&& scene@.objects[i].start() == object_start(
                            texts(object_faces@),
                            texts(material_names@),
                            i as nat,
                        )
                        &&& scene@.objects[i].count() == object_count(
                            texts(object_faces@),
                            texts(material_names@),
                            i,
                        )
                        &&& scene@.objects[i].encloses(scene@.mesh)
                    }
            },
            Err(SceneError::Parse { object, error }) => gathered_triangles(
                texts(object_faces@),
                texts(material_names@),
                object_faces@.len(),
            ) == Err::<Seq<(usize, usize, usize, usize, usize)>, _>((object as nat, error)),
            Err(SceneError::Reference { triangle }) => {
                &&& gathered_triangles(texts(object_faces@), texts(material_names@), object_faces@.len())
                    matches Ok(all)
                &&& triangle < all.len()
                &&& !indices_in_bounds(all[triangle as int], positions@.len(), normals@.len(), materials@.len())
                &&& forall|j: int|
                    0 <= j < triangle ==> indices_in_bounds(
                        #[trigger] all[j],
                        positions@.len(),
                        normals@.len(),
                        materials@.len(),
                    )
            },
        },
{
    let mut mesh = TriangleMesh::new(positions, normals, materials, Vec::new());
    let objects = match get_objects(&mut mesh, identifiers, object_faces, material_names) {
        Ok(objects) => objects,
        Err(e) => {
            return Err(e);
        },
    };
    let triangle_total: usize = mesh.triangle_indices().len();
    let object_total: usize = objects.len();
    let scene = Scene::new(mesh, objects);
    proof {
        let faces = texts(object_faces@);
        let names = texts(material_names@);
        let all = gathered_triangles(faces, names, object_faces@.len())->Ok_0;
        assert(indices_of(scene@.mesh.triangles) =~= all);
        assert forall|i: int| 0 <= i < scene@.objects.len() implies {
            &&& (#[trigger] scene@.objects[i]).name() == identifiers@[i]@
            &&& scene@.objects[i].start() == object_start(faces, names, i as nat)
            &&& scene@.objects[i].count() == object_count(faces, names, i)
            &&& scene@.objects[i].encloses(scene@.mesh)
            &&& scene@.objects[i].fits(scene@.mesh)
        } by {}
    }
    Ok(scene)
}

/// What [`read_objects`] has read of the first `n` objects: all their
/// triangles, and for each object where its own start and how many they
/// are.
pub open spec fn objects_read(
    faces: Seq<Seq<u8>>,
    names: Seq<Seq<u8>>,
    n: nat,
    triangles: Seq<TriangleIndex>,
    starts: Seq<usize>,
    counts: Seq<usize>,
) -> bool {
    &&& starts.len() == n
    &&& counts.len() == n
    &&& gathered_triangles(faces, names, n) == Ok::<_, (nat, ParseError)>(indices_of(triangles))
    &&& forall|j: int|
        0 <= j < n ==> {
            &&& (#[trigger] starts[j]) == object_start(faces, names, j as nat)
            &&& counts[j] == object_count(faces, names, j)
            &&& starts[j] + counts[j] <= triangles.len()
        }
}

/// Reads the faces of every object, in order.
fn read_objects(object_faces: &Vec<Vec<u8>>, material_names: &Vec<Vec<u8>>) -> (r: Result<
    (Vec<TriangleIndex>, Vec<usize>, Vec<usize>),
    (usize, ParseError),
>)
    ensures
        match r {
            Ok((triangles, starts, counts)) => objects_read(
                texts(object_faces@),
                texts(material_names@),
                object_faces@.len(),
                triangles@,
                starts@,
                counts@,
            ),
            Err((object, error)) => gathered_triangles(
                texts(object_faces@),
                texts(material_names@),
                object_faces@.len(),
            ) == Err::<Seq<(usize, usize, usize, usize, usize)>, _>((object as nat, error)),
        },
{
    let ghost faces = texts(object_faces@);
    let ghost names = texts(material_names@);
    let count: usize = object_faces.len();
    let mut triangles: Vec<TriangleIndex> = Vec::new();
    let mut starts: Vec<usize> = Vec::new();
    let mut counts: Vec<usize> = Vec::new();
    let mut i: usize = 0;
    assert(indices_of(triangles@) =~= Seq::empty());
    while i < count
        invariant
            i <= count,
            count == object_faces@.len(),
            faces == texts(object_faces@),
            names == texts(material_names@),
            objects_read(faces, names, i as nat, triangles@, starts@, counts@),
        decreases count - i,
    {
        match parse_triangle_indices(object_faces[i].as_slice(), material_names) {
            Ok(own) => {
                let ghost before = triangles@;
                let ghost starts_before = starts@;
                let ghost counts_before = counts@;
                starts.push(triangles.len());
                counts.push(own.len());
                append_triangles(&mut triangles, &own);
                proof {
                    assert(faces[i as int] == object_faces@[i as int]@);
                    assert(triangles_from(faces[i as int], names, 0, 0) == Ok::<_, ParseError>(indices_of(own@)));
                    assert(gathered_triangles(faces, names, (i + 1) as nat) == Ok::<_, (nat, ParseError)>(
                        indices_of(before) + indices_of(own@),
                    ));
                    assert(indices_of(before).len() == before.len());
                    assert(indices_of(own@).len() == own@.len());
                    assert forall|j: int| 0 <= j < i + 1 implies {
                        &&& (#[trigger] starts@[j]) == object_start(faces, names, j as nat)
                        &&& counts@[j] == object_count(faces, names, j)
                        &&& starts@[j] + counts@[j] <= triangles@.len()
                    } by {
                        if j < i {
                            assert(starts@[j] == starts_before[j]);
                            assert(counts@[j] == counts_before[j]);
                        }
                    }
                }
            },
            Err(error) => {
                proof {
                    assert(faces[i as int] == object_faces@[i as int]@);
                    lemma_failure_stays(faces, names, i as nat + 1, count as nat);
                }
                return Err((i, error));
            },
        }
        i += 1;
    }
    Ok((triangles, starts, counts))
}

/// Appends the triangles of one list to another.
fn append_triangles(triangles: &mut Vec<TriangleIndex>, own: &Vec<TriangleIndex>)
    ensures
        final(triangles)@ == old(triangles)@ + own@,
        indices_of(final(triangles)@) == indices_of(old(triangles)@) + indices_of(own@),
{
    let mut k: usize = 0;
    while k < own.len()
        invariant
            k <= own@.len(),
            triangles@ == old(triangles)@ + own@.subrange(0, k as int),
        decreases own@.len() - k,
    {
        triangles.push(own[k]);
        k += 1;
    }
    assert(own@.subrange(0, own@.len() as int) == own@);
    assert(indices_of(triangles@) =~= indices_of(old(triangles)@) + indices_of(own@));
}

/// The first of the triangles that points outside the mesh, if any.
fn first_stray(mesh: &TriangleMesh, triangles: &Vec<TriangleIndex>) -> (r: Option<usize>)
    ensures
        match r {
            Some(t) => {
                &&& t < triangles@.len()
                &&& !mesh@.holds(triangles@[t as int])
                &&& forall|j: int| 0 <= j < t ==> mesh@.holds(#[trigger] triangles@[j])
            },
            None => forall|j: int| 0 <= j < triangles@.len() ==> mesh@.holds(#[trigger] triangles@[j]),
        },
{
    let mut t: usize = 0;
    while t < triangles.len()
        invariant
            t <= triangles@.len(),
            forall|j: int| 0 <= j < t ==> mesh@.holds(#[trigger] triangles@[j]),
        decreases triangles@.len() - t,
    {
        if !mesh.holds(&triangles[t]) {
            return Some(t);
        }
        t += 1;
    }
    None
}

/// The objects of the given names over the given runs of triangles, which
/// are counted from `offset` on.
fn build_objects(
    identifiers: &Vec<String>,
    starts: &Vec<usize>,
    counts: &Vec<usize>,
    offset: usize,
    mesh: &TriangleMesh,
) -> (objects: Vec<Object>)
    requires
        identifiers@.len() == starts@.len() == counts@.len(),
        forall|j: int| offset <= j < mesh@.triangles.len() ==> mesh@.holds(#[trigger] mesh@.triangles[j]),
        forall|j: int|
            0 <= j < starts@.len() ==> offset + (#[trigger] starts@[j]) + counts@[j] <= mesh@.triangles.len(),
    ensures
        objects@.len() == starts@.len(),
        forall|j: int|
            0 <= j < objects@.len() ==> {
                &&& (#[trigger] objects@[j]).name() == identifiers@[j]@
                &&& objects@[j].start() == offset + starts@[j]
                &&& objects@[j].count() == counts@[j]
                &&& objects@[j].fits(mesh@)
                &&& objects@[j].encloses(mesh@)
            },
{
    let count: usize = starts.len();
    let total: usize = mesh.triangle_indices().len();
    let mut objects: Vec<Object> = Vec::new();
    let mut o: usize = 0;
    while o < count
        invariant
            o <= count,
            count == starts@.len(),
            total == mesh@.triangles.len(),
            identifiers@.len() == starts@.len() == counts@.len(),
            objects@.len() == o,
            forall|j: int| offset <= j < mesh@.triangles.len() ==> mesh@.holds(#[trigger] mesh@.triangles[j]),
            forall|j: int|
                0 <= j < starts@.len() ==> offset + (#[trigger] starts@[j]) + counts@[j] <= mesh@.triangles.len(),
            forall|j: int|
                0 <= j < o ==> {
                    &&& (#[trigger] objects@[j]).name() == identifiers@[j]@
                    &&& objects@[j].start() == offset + starts@[j]
                    &&& objects@[j].count() == counts@[j]
                    &&& objects@[j].fits(mesh@)
                    &&& objects@[j].encloses(mesh@)
                },
        decreases count - o,
    {
        assert(offset + starts@[o as int] + counts@[o as int] <= total);
        let object = Object::new(identifiers[o].clone(), offset + starts[o], counts[o], mesh);
        objects.push(object);
        o += 1;
    }
    objects
}

/// Reads the faces of every object as records.
///
/// Returns for each object, in order, where its triangles start among all
/// triangles and how many they are, both cut down to 32 bits and with a
/// box still to be computed; and the triangles of all objects, one object
/// after the other. Where the faces of an object cannot be read, returns
/// the first such object and why.
pub fn get_object_and_triangle_data(object_faces: &Vec<Vec<u8>>, material_names: &Vec<Vec<u8>>) -> (r: Result<
    (Vec<ObjectData>, Vec<TriangleData>),
    SceneError,
>)
    ensures
        match r {
            Ok((objects, triangles)) => {
                &&& gathered_triangles(texts(object_faces@), texts(material_names@), object_faces@.len())
                    matches Ok(all) && triangles@ == all.map_values(
                    |t: (usize, usize, usize, usize, usize)| record_of(t),
                )
                &&& objects@.len() == object_faces@.len()
                &&& forall|i: int|
                    0 <= i < objects@.len() ==> #[trigger] objects@[i] == (ObjectData {
                        aabb_min: crate::vec3::Vec3::zero(),
                        aabb_max: crate::vec3::Vec3::zero(),
                        triangle_start_index: object_start(
                            texts(object_faces@),
                            texts(material_names@),
                            i as nat,
                        ) as u32,
                        triangle_count: object_count(texts(object_faces@), texts(material_names@), i) as u32,
                    })
            },
            Err(SceneError::Parse { object, error }) => gathered_triangles(
                texts(object_faces@),
                texts(material_names@),
                object_faces@.len(),
            ) == Err::<Seq<(usize, usize, usize, usize, usize)>, _>((object as nat, error)),
            Err(SceneError::Reference { .. }) => false,
        },
{
    let (triangles, starts, counts) = match read_objects(object_faces, material_names) {
        Ok(read) => read,
        Err((object, error)) => {
            return Err(SceneError::Parse { object, error });
        },
    };
    let ghost faces = texts(object_faces@);
    let ghost names = texts(material_names@);
    let mut objects: Vec<ObjectData> = Vec::new();
    let mut i: usize = 0;
    while i < starts.len()
        invariant
            i <= starts@.len(),
            faces == texts(object_faces@),
            names == texts(material_names@),
            objects_read(faces, names, object_faces@.len(), triangles@, starts@, counts@),
            objects@.len() == i,
            forall|j: int|
                0 <= j < i ==> #[trigger] objects@[j] == (ObjectData {
                    aabb_min: crate::vec3::Vec3::zero(),
                    aabb_max: crate::vec3::Vec3::zero(),
                    triangle_start_index: object_start(faces, names, j as nat) as u32,
                    triangle_count: object_count(faces, names, j) as u32,
                }),
        decreases starts@.len() - i,
    {
        assert(starts@[i as int] == object_start(faces, names, i as nat));
        objects.push(ObjectData::without_bounding_box(cut(starts[i]), cut(counts[i])));
        i += 1;
    }
    let records = to_records(&triangles);
    assert(records@ =~= indices_of(triangles@).map_values(
        |t: (usize, usize, usize, usize, usize)| record_of(t),
    ));
    Ok((objects, records))
}

/// The low 32 bits of a count.
fn cut(count: usize) -> (word: u32)
    ensures
        word == count as u32,
{
    #[verifier::truncate]
    (count as u32)
}

/// Once the faces of an object cannot be read, the objects behind it do
/// not change that.
proof fn lemma_failure_stays(faces: Seq<Seq<u8>>, names: Seq<Seq<u8>>, from: nat, to: nat)
    requires
        from <= to,
        gathered_triangles(faces, names, from) is Err,
    ensures
        gathered_triangles(faces, names, to) == gathered_triangles(faces, names, from),
    decreases to - from,
{
    if from < to {
        lemma_failure_stays(faces, names, from, (to - 1) as nat);
    }
}

} // verus!
