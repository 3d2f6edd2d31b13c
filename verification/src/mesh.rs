//! What an importer hands over, turned into what is uploaded: vertices,
//! indices and the parameters of a material.

use crate::model::{MaterialProperty, PropertyUpdate};
use crate::vertex::Vertex;
use rayon::iter::{IntoParallelIterator, IntoParallelRefIterator, ParallelIterator};
use vstd::prelude::*;
use vstd::string::*;

verus! {

/// Why a mesh could not be turned into vertices.
#[derive(Clone, Copy, Debug, PartialEq, Eq, Structural)]
pub enum MeshError {
    /// There are fewer normals than positions.
    MissingNormals,
    /// There are texture coordinates, but fewer than positions.
    MissingTexCoords,
}

/// True of two strings with the same characters.
fn same_text(a: &str, b: &str) -> (same: bool)
    ensures
        same == (a@ == b@),
{
    a.to_owned() == b.to_owned()
}

/// The property that a key of an importer's property table names.
pub open spec fn spec_classify_property(key: Seq<char>) -> MaterialProperty {
    if key == "$clr.base"@ {
        MaterialProperty::BaseColor
    } else if key == "$mat.roughnessFactor"@ {
        MaterialProperty::RoughnessFactor
    } else if key == "$mat.metallicFactor"@ {
        MaterialProperty::MetallicFactor
    } else if key == "$clr.diffuse"@ {
        MaterialProperty::DiffuseColor
    } else if key == "$mat.shininess"@ {
        MaterialProperty::Shininess
    } else {
        MaterialProperty::Other
    }
}

/// What a property with the given values does to a material. A property
/// with fewer values than it needs changes nothing.
pub open spec fn spec_property_update<S>(key: Seq<char>, data: Seq<S>) -> PropertyUpdate<S> {
    match spec_classify_property(key) {
        MaterialProperty::BaseColor | MaterialProperty::DiffuseColor => if data.len() >= 3 {
            PropertyUpdate::Albedo([data[0], data[1], data[2]])
        } else {
            PropertyUpdate::Unchanged
        },
        MaterialProperty::RoughnessFactor => if data.len() >= 1 {
            PropertyUpdate::Roughness(data[0])
        } else {
            PropertyUpdate::Unchanged
        },
        MaterialProperty::MetallicFactor => if data.len() >= 1 {
            PropertyUpdate::Metallic(data[0])
        } else {
            PropertyUpdate::Unchanged
        },
        MaterialProperty::Shininess => if data.len() >= 1 {
            PropertyUpdate::RoughnessOfShininess(data[0])
        } else {
            PropertyUpdate::Unchanged
        },
        MaterialProperty::Other => PropertyUpdate::Unchanged,
    }
}

/// The property that a key of an importer's property table names.
pub fn classify_property(key: &str) -> (property: MaterialProperty)
    ensures
        property == spec_classify_property(key@),
{
    if same_text(key, "$clr.base") {
        MaterialProperty::BaseColor
    } else if same_text(key, "$mat.roughnessFactor") {
        MaterialProperty::RoughnessFactor
    } else if same_text(key, "$mat.metallicFactor") {
        MaterialProperty::MetallicFactor
    } else if same_text(key, "$clr.diffuse") {
        MaterialProperty::DiffuseColor
    } else if same_text(key, "$mat.shininess") {
        MaterialProperty::Shininess
    } else {
        MaterialProperty::Other
    }
}

/// What a property with the given values does to a material.
pub fn property_update<S: Copy>(key: &str, data: &Vec<S>) -> (update: PropertyUpdate<S>)
    ensures
        update == spec_property_update(key@, data@),
{
    match classify_property(key) {
        MaterialProperty::BaseColor | MaterialProperty::DiffuseColor => if data.len() >= 3 {
            PropertyUpdate::Albedo([data[0], data[1], data[2]])
        } else {
            PropertyUpdate::Unchanged
        },
        MaterialProperty::RoughnessFactor => if data.len() >= 1 {
            PropertyUpdate::Roughness(data[0])
        } else {
            PropertyUpdate::Unchanged
        },
        MaterialProperty::MetallicFactor => if data.len() >= 1 {
            PropertyUpdate::Metallic(data[0])
        } else {
            PropertyUpdate::Unchanged
        },
        MaterialProperty::Shininess => if data.len() >= 1 {
            PropertyUpdate::RoughnessOfShininess(data[0])
        } else {
            PropertyUpdate::Unchanged
        },
        MaterialProperty::Other => PropertyUpdate::Unchanged,
    }
}

/// Vertex `index` of an imported mesh: its position, its normal, and the
/// first two of its texture coordinates, or `zero` twice where the mesh has
/// none.
pub open spec fn spec_vertex_at<S>(
    positions: Seq<[S; 3]>,
    normals: Seq<[S; 3]>,
    tex_coords: Option<Seq<[S; 3]>>,
    zero: S,
    index: int,
) -> (Seq<S>, Seq<S>, Seq<S>) {
    (
        positions[index]@,
        normals[index]@,
        match tex_coords {
            Some(t) => seq![t[index]@[0], t[index]@[1]],
            None => seq![zero, zero],
        },
    )
}

/// True when every position has a normal and, where there are texture
/// coordinates at all, its texture coordinates.
pub open spec fn mesh_is_complete<S>(
    positions: Seq<[S; 3]>,
    normals: Seq<[S; 3]>,
    tex_coords: Option<Seq<[S; 3]>>,
) -> bool {
    &&& positions.len() <= normals.len()
    &&& tex_coords is Some ==> positions.len() <= tex_coords->0.len()
}

/// The view of optional texture coordinates.
pub open spec fn tex_view<S>(tex_coords: Option<Vec<[S; 3]>>) -> Option<Seq<[S; 3]>> {
    match tex_coords {
        Some(t) => Some(t@),
        None => None,
    }
}

/// What the vertices of a complete mesh must be.
pub open spec fn is_vertex_list<S>(
    vertices: Seq<Vertex<S>>,
    positions: Seq<[S; 3]>,
    normals: Seq<[S; 3]>,
    tex_coords: Option<Seq<[S; 3]>>,
    zero: S,
) -> bool {
    &&& vertices.len() == positions.len()
    &&& forall|i: int|
        0 <= i < positions.len() ==> (#[trigger] vertices[i]).parts() == spec_vertex_at(
            positions,
            normals,
            tex_coords,
            zero,
            i,
        )
}

/// Vertex `index` of an imported mesh.
pub fn vertex_at<S: Copy>(
    positions: &Vec<[S; 3]>,
    normals: &Vec<[S; 3]>,
    tex_coords: &Option<Vec<[S; 3]>>,
    zero: S,
    index: usize,
) -> (v: Vertex<S>)
    requires
        mesh_is_complete(positions@, normals@, tex_view(*tex_coords)),
        index < positions@.len(),
    ensures
        v.parts() == spec_vertex_at(positions@, normals@, tex_view(*tex_coords), zero, index as int),
{
    let tex: [S; 2] = match tex_coords {
        Some(t) => {
            let c = t[index];
            [c[0], c[1]]
        },
        None => [zero, zero],
    };
    let v = Vertex { position: positions[index], normal: normals[index], tex_coords: tex };
    assert(v.tex_coords@ =~= spec_vertex_at(
        positions@,
        normals@,
        tex_view(*tex_coords),
        zero,
        index as int,
    ).2);
    v
}

fn check_mesh<S>(
    positions: &Vec<[S; 3]>,
    normals: &Vec<[S; 3]>,
    tex_coords: &Option<Vec<[S; 3]>>,
) -> (r: Result<(), MeshError>)
    ensures
        match r {
            Ok(_) => mesh_is_complete(positions@, normals@, tex_view(*tex_coords)),
            Err(MeshError::MissingNormals) => positions@.len() > normals@.len(),
            Err(MeshError::MissingTexCoords) => positions@.len() <= normals@.len()
                && tex_coords is Some && positions@.len() > tex_coords->0@.len(),
        },
{
    if positions.len() > normals.len() {
        return Err(MeshError::MissingNormals);
    }
    match tex_coords {
        Some(t) => {
            if positions.len() > t.len() {
                return Err(MeshError::MissingTexCoords);
            }
        },
        None => {},
    }
    Ok(())
}

/// Builds the vertices of a mesh one after the other. Fails when a position
/// has no normal or, in a mesh with texture coordinates, none of those.
pub fn build_vertices<S: Copy>(
    positions: &Vec<[S; 3]>,
    normals: &Vec<[S; 3]>,
    tex_coords: &Option<Vec<[S; 3]>>,
    zero: S,
) -> (r: Result<Vec<Vertex<S>>, MeshError>)
    ensures
        match r {
            Ok(vertices) => mesh_is_complete(positions@, normals@, tex_view(*tex_coords))
                && is_vertex_list(vertices@, positions@, normals@, tex_view(*tex_coords), zero),
            Err(MeshError::MissingNormals) => positions@.len() > normals@.len(),
            Err(MeshError::MissingTexCoords) => positions@.len() <= normals@.len()
                && tex_coords is Some && positions@.len() > tex_coords->0@.len(),
        },
{
    match check_mesh(positions, normals, tex_coords) {
        Err(e) => Err(e),
        Ok(_) => {
            let mut vertices: Vec<Vertex<S>> = Vec::with_capacity(positions.len());
            let mut i: usize = 0;
            while i < positions.len()
                invariant
                    i <= positions@.len(),
                    mesh_is_complete(positions@, normals@, tex_view(*tex_coords)),
                    vertices@.len() == i,
                    forall|j: int|
                        0 <= j < i ==> (#[trigger] vertices@[j]).parts() == spec_vertex_at(
                            positions@,
                            normals@,
                            tex_view(*tex_coords),
                            zero,
                            j,
                        ),
                decreases positions@.len() - i,
            {
                vertices.push(vertex_at(positions, normals, tex_coords, zero, i));
                i += 1;
            }
            Ok(vertices)
        },
    }
}

/// Builds the vertices of a mesh in parallel.
///
/// Trusted: rayon's `into_par_iter` over a range followed by `map` and
/// `collect` into a `Vec` gives the results in the order of the range.
#[verifier::external_body]
fn par_build_vertices<S: Copy + Send + Sync>(
    positions: &Vec<[S; 3]>,
    normals: &Vec<[S; 3]>,
    tex_coords: &Option<Vec<[S; 3]>>,
    zero: S,
) -> (vertices: Vec<Vertex<S>>)
    requires
        mesh_is_complete(positions@, normals@, tex_view(*tex_coords)),
    ensures
        is_vertex_list(vertices@, positions@, normals@, tex_view(*tex_coords), zero),
{
    (0..positions.len()).into_par_iter().map(
        |index| vertex_at(positions, normals, tex_coords, zero, index),
    ).collect()
}

/// Builds the vertices of a mesh, handing the work out to the thread pool.
/// Fails when a position has no normal or, in a mesh with texture
/// coordinates, none of those.
pub fn build_vertices_parallel<S: Copy + Send + Sync>(
    positions: &Vec<[S; 3]>,
    normals: &Vec<[S; 3]>,
    tex_coords: &Option<Vec<[S; 3]>>,
    zero: S,
) -> (r: Result<Vec<Vertex<S>>, MeshError>)
    ensures
        match r {
            Ok(vertices) => mesh_is_complete(positions@, normals@, tex_view(*tex_coords))
                && is_vertex_list(vertices@, positions@, normals@, tex_view(*tex_coords), zero),
            Err(MeshError::MissingNormals) => positions@.len() > normals@.len(),
            Err(MeshError::MissingTexCoords) => positions@.len() <= normals@.len()
                && tex_coords is Some && positions@.len() > tex_coords->0@.len(),
        },
{
    match check_mesh(positions, normals, tex_coords) {
        Err(e) => Err(e),
        Ok(_) => Ok(par_build_vertices(positions, normals, tex_coords, zero)),
    }
}

/// The indices of all faces, face after face.
pub open spec fn concat_faces(faces: Seq<Vec<u32>>) -> Seq<u32>
    decreases faces.len(),
{
    if faces.len() == 0 {
        Seq::empty()
    } else {
        concat_faces(faces.drop_last()) + faces.last()@
    }
}

/// Lays the indices of all faces out in one list, face after face.
pub fn flatten_faces(faces: &Vec<Vec<u32>>) -> (indices: Vec<u32>)
    ensures
        indices@ == concat_faces(faces@),
{
    let mut indices: Vec<u32> = Vec::new();
    let mut f: usize = 0;
    while f < faces.len()
        invariant
            f <= faces@.len(),
            indices@ == concat_faces(faces@.take(f as int)),
        decreases faces@.len() - f,
    {
        let face = &faces[f];
        let ghost before = indices@;
        let mut k: usize = 0;
        while k < face.len()
            invariant
                k <= face@.len(),
                indices@ == before + face@.take(k as int),
            decreases face@.len() - k,
        {
            indices.push(face[k]);
            proof {
                assert(face@.take(k + 1) =~= face@.take(k as int).push(face@[k as int]));
            }
            k += 1;
        }
        proof {
            assert(face@.take(face@.len() as int) =~= face@);
            assert(faces@.take(f + 1).drop_last() =~= faces@.take(f as int));
        }
        f += 1;
    }
    proof {
        assert(faces@.take(faces@.len() as int) =~= faces@);
    }
    indices
}

/// Lays the indices of all faces out in one list in parallel.
///
/// Trusted: rayon's `flatten` followed by `collect` into a `Vec` gives the
/// indices of each face in order, the faces in their order.
#[verifier::external_body]
fn par_flatten_faces(faces: &Vec<Vec<u32>>) -> (indices: Vec<u32>)
    ensures
        indices@ == concat_faces(faces@),
{
    faces.par_iter().flatten().copied().collect()
}

/// Lays the indices of all faces out in one list, handing the work out to
/// the thread pool.
pub fn flatten_faces_parallel(faces: &Vec<Vec<u32>>) -> (indices: Vec<u32>)
    ensures
        indices@ == concat_faces(faces@),
{
    par_flatten_faces(faces)
}

/// Vertex `index` of a mesh whose positions and normals come as flat lists
/// of three values each. A vertex whose normal is not there keeps the
/// normal of `default`; texture coordinates are always those of `default`.
pub open spec fn spec_flat_vertex<S>(
    positions: Seq<S>,
    normals: Seq<S>,
    default: Vertex<S>,
    index: int,
) -> (Seq<S>, Seq<S>, Seq<S>) {
    (
        seq![positions[3 * index], positions[3 * index + 1], positions[3 * index + 2]],
        if 3 * index + 2 < normals.len() {
            seq![normals[3 * index], normals[3 * index + 1], normals[3 * index + 2]]
        } else {
            default.normal@
        },
        default.tex_coords@,
    )
}

/// Builds the vertices of a mesh whose positions and normals come as flat
/// lists. Values that do not make up a whole position are left out.
pub fn build_vertices_flat<S: Copy>(positions: &Vec<S>, normals: &Vec<S>, default: Vertex<S>) -> (vertices:
    Vec<Vertex<S>>)
    ensures
        vertices@.len() == positions@.len() / 3,
        forall|i: int|
            0 <= i < vertices@.len() ==> (#[trigger] vertices@[i]).parts() == spec_flat_vertex(
                positions@,
                normals@,
                default,
                i,
            ),
{
    let count = positions.len() / 3;
    let normal_count = normals.len();
    let mut vertices: Vec<Vertex<S>> = Vec::with_capacity(count);
    let mut i: usize = 0;
    while i < count
        invariant
            i <= count,
            count == positions@.len() / 3,
            3 * count <= positions@.len() <= usize::MAX,
            normal_count == normals@.len(),
            vertices@.len() == i,
            forall|j: int|
                0 <= j < i ==> (#[trigger] vertices@[j]).parts() == spec_flat_vertex(
                    positions@,
                    normals@,
                    default,
                    j,
                ),
        decreases count - i,
    {
        let index = 3 * i;
        let position: [S; 3] = [positions[index], positions[index + 1], positions[index + 2]];
        let normal: [S; 3] = if index + 2 < normal_count {
            [normals[index], normals[index + 1], normals[index + 2]]
        } else {
            default.normal
        };
        let v = Vertex { position, normal, tex_coords: default.tex_coords };
        proof {
            let want = spec_flat_vertex(positions@, normals@, default, i as int);
            assert(v.position@ =~= want.0);
            assert(v.normal@ =~= want.1);
        }
        vertices.push(v);
        i += 1;
    }
    vertices
}

} // verus!
