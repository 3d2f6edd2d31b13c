//! Fixed meshes: the unit cube, the skybox cube and the screen-filling quad.
//!
//! All of them have integer coordinates, so they are kept as integers here and
//! turned into the backend's scalar type when they are uploaded.

use crate::cube_face::{Axis, CubeFace};
use crate::vertex::{default_normal, default_tex_coords, Vertex};
use vstd::prelude::*;

verus! {

/// Number of vertices of a cube drawn as a triangle list: 6 faces of 2 triangles.
pub const CUBE_VERTEX_COUNT: usize = 36;

/// Corner of the unit cube at each vertex of [`get_cube`], six per face.
pub const CUBE_CORNERS: [[i8; 3]; 36] = [
    [-1, -1, -1],
    [1, 1, -1],
    [1, -1, -1],
    [1, 1, -1],
    [-1, -1, -1],
    [-1, 1, -1],
    [-1, -1, 1],
    [1, -1, 1],
    [1, 1, 1],
    [1, 1, 1],
    [-1, 1, 1],
    [-1, -1, 1],
    [-1, 1, 1],
    [-1, 1, -1],
    [-1, -1, -1],
    [-1, -1, -1],
    [-1, -1, 1],
    [-1, 1, 1],
    [1, 1, 1],
    [1, -1, -1],
    [1, 1, -1],
    [1, -1, -1],
    [1, 1, 1],
    [1, -1, 1],
    [-1, -1, -1],
    [1, -1, -1],
    [1, -1, 1],
    [1, -1, 1],
    [-1, -1, 1],
    [-1, -1, -1],
    [-1, 1, -1],
    [1, 1, 1],
    [1, 1, -1],
    [1, 1, 1],
    [-1, 1, -1],
    [-1, 1, 1],
];

/// Corner of the unit cube at each vertex of [`get_skybox_cube`].
pub const SKYBOX_CORNERS: [[i8; 3]; 36] = [
    [-1, 1, -1],
    [-1, -1, -1],
    [1, -1, -1],
    [1, -1, -1],
    [1, 1, -1],
    [-1, 1, -1],
    [-1, -1, 1],
    [-1, -1, -1],
    [-1, 1, -1],
    [-1, 1, -1],
    [-1, 1, 1],
    [-1, -1, 1],
    [1, -1, -1],
    [1, -1, 1],
    [1, 1, 1],
    [1, 1, 1],
    [1, 1, -1],
    [1, -1, -1],
    [-1, -1, 1],
    [-1, 1, 1],
    [1, 1, 1],
    [1, 1, 1],
    [1, -1, 1],
    [-1, -1, 1],
    [-1, 1, -1],
    [1, 1, -1],
    [1, 1, 1],
    [1, 1, 1],
    [-1, 1, 1],
    [-1, 1, -1],
    [-1, -1, -1],
    [-1, -1, 1],
    [1, -1, -1],
    [1, -1, -1],
    [-1, -1, 1],
    [1, -1, 1],
];

/// Corner of the quad at each of its four vertices: top left, top right,
/// bottom left, bottom right.
pub const QUAD_CORNERS: [[i8; 3]; 4] = [[-1, 1, 0], [1, 1, 0], [-1, -1, 0], [1, -1, 0]];

/// The two triangles of a quad, as indices into its four vertices.
pub const QUAD_INDICES: [u32; 6] = [0, 1, 2, 1, 3, 2];

/// The face that each block of six cube vertices lies on: back, front,
/// left, right, bottom, top.
pub open spec fn cube_block_face(block: int) -> CubeFace {
    if block == 0 {
        CubeFace::NegativeZ
    } else if block == 1 {
        CubeFace::PositiveZ
    } else if block == 2 {
        CubeFace::NegativeX
    } else if block == 3 {
        CubeFace::PositiveX
    } else if block == 4 {
        CubeFace::NegativeY
    } else {
        CubeFace::PositiveY
    }
}

/// The face that each block of six skybox vertices lies on.
pub open spec fn skybox_block_face(block: int) -> CubeFace {
    if block == 0 {
        CubeFace::NegativeZ
    } else if block == 1 {
        CubeFace::NegativeX
    } else if block == 2 {
        CubeFace::PositiveX
    } else if block == 3 {
        CubeFace::PositiveZ
    } else if block == 4 {
        CubeFace::PositiveY
    } else {
        CubeFace::NegativeY
    }
}

/// A vector as the sequence of its three components.
pub open spec fn axis_seq(a: Axis) -> Seq<i8> {
    seq![a.x, a.y, a.z]
}

/// A coordinate in -1..=1 mapped onto 0..=1.
pub open spec fn unit_coord(c: int) -> i8 {
    ((c + 1) / 2) as i8
}

/// Texture coordinates of a point on a cube face. Faces across Z map (x, y);
/// faces across X map (y, -z); faces across Y map (x, -z).
pub open spec fn cube_tex_coords(normal: Axis, position: Seq<i8>) -> Seq<i8> {
    if normal.z != 0 {
        seq![unit_coord(position[0] as int), unit_coord(position[1] as int)]
    } else if normal.x != 0 {
        seq![unit_coord(position[1] as int), unit_coord(-position[2])]
    } else {
        seq![unit_coord(position[0] as int), unit_coord(-position[2])]
    }
}

/// Vertex `i` of the cube mesh: its corner, the outward normal of the face its
/// block lies on, and the texture coordinates of the corner on that face.
pub open spec fn cube_vertex(i: int) -> (Seq<i8>, Seq<i8>, Seq<i8>) {
    let position = CUBE_CORNERS@[i]@;
    let normal = cube_block_face(i / 6).spec_axis();
    (position, axis_seq(normal), cube_tex_coords(normal, position))
}

/// Vertex `i` of the quad: its corner, the default normal, and texture
/// coordinates that run from (0, 0) at the top left to (1, 1) at the bottom
/// right.
pub open spec fn quad_vertex(i: int) -> (Seq<i8>, Seq<i8>, Seq<i8>) {
    let position = QUAD_CORNERS@[i]@;
    (
        position,
        default_normal(),
        seq![unit_coord(position[0] as int), unit_coord(-position[1])],
    )
}

/// Vertex `i` of the skybox cube: only the position is meaningful.
pub open spec fn skybox_vertex(i: int) -> (Seq<i8>, Seq<i8>, Seq<i8>) {
    (SKYBOX_CORNERS@[i]@, default_normal(), default_tex_coords())
}

fn halve(c: i8) -> (h: i8)
    requires
        -1 <= c <= 1,
    ensures
        h == unit_coord(c as int),
{
    (c + 1) / 2
}

fn block_normal(block: usize) -> (n: Axis)
    requires
        block < 6,
    ensures
        n == cube_block_face(block as int).spec_axis(),
{
    if block == 0 {
        Axis { x: 0, y: 0, z: -1 }
    } else if block == 1 {
        Axis { x: 0, y: 0, z: 1 }
    } else if block == 2 {
        Axis { x: -1, y: 0, z: 0 }
    } else if block == 3 {
        Axis { x: 1, y: 0, z: 0 }
    } else if block == 4 {
        Axis { x: 0, y: -1, z: 0 }
    } else {
        Axis { x: 0, y: 1, z: 0 }
    }
}

/// The unit cube as a triangle list of 36 vertices with outward normals and
/// per-face texture coordinates.
pub fn get_cube() -> (cube: Vec<Vertex<i8>>)
    ensures
        cube.len() == CUBE_VERTEX_COUNT,
        forall|i: int| 0 <= i < CUBE_VERTEX_COUNT ==> (#[trigger] cube[i]).parts() == cube_vertex(i),
{
    let mut cube: Vec<Vertex<i8>> = Vec::new();
    let mut i: usize = 0;
    while i < CUBE_VERTEX_COUNT
        invariant
            i <= CUBE_VERTEX_COUNT,
            cube.len() == i,
            forall|j: int| 0 <= j < i ==> (#[trigger] cube[j]).parts() == cube_vertex(j),
        decreases CUBE_VERTEX_COUNT - i,
    {
        let position: [i8; 3] = CUBE_CORNERS[i];
        let normal: Axis = block_normal(i / 6);
        let tex_coords: [i8; 2] = if normal.z != 0 {
            [halve(position[0]), halve(position[1])]
        } else if normal.x != 0 {
            [halve(position[1]), halve(-position[2])]
        } else {
            [halve(position[0]), halve(-position[2])]
        };
        let v = Vertex { position, normal: [normal.x, normal.y, normal.z], tex_coords };
        assert(v.normal@ =~= axis_seq(normal));
        assert(v.tex_coords@ =~= cube_tex_coords(normal, position@));
        cube.push(v);
        i += 1;
    }
    cube
}

/// The same mesh under the name the cubemap renderer knows it by.
pub fn get_cube_vertices() -> (cube: Vec<Vertex<i8>>)
    ensures
        cube.len() == CUBE_VERTEX_COUNT,
        forall|i: int| 0 <= i < CUBE_VERTEX_COUNT ==> (#[trigger] cube[i]).parts() == cube_vertex(i),
{
    get_cube()
}

/// The screen-filling quad: four vertices in the plane z = 0.
pub fn get_quad() -> (quad: Vec<Vertex<i8>>)
    ensures
        quad.len() == 4,
        forall|i: int| 0 <= i < 4 ==> (#[trigger] quad[i]).parts() == quad_vertex(i),
{
    let mut quad: Vec<Vertex<i8>> = Vec::new();
    let mut i: usize = 0;
    while i < 4
        invariant
            i <= 4,
            quad.len() == i,
            forall|j: int| 0 <= j < i ==> (#[trigger] quad[j]).parts() == quad_vertex(j),
        decreases 4 - i,
    {
        let position: [i8; 3] = QUAD_CORNERS[i];
        let tex_coords: [i8; 2] = [halve(position[0]), halve(-position[1])];
        let v = Vertex { position, normal: [0i8, 0i8, -1i8], tex_coords };
        assert(v.normal@ =~= default_normal());
        assert(v.tex_coords@ =~= quad_vertex(i as int).2);
        quad.push(v);
        i += 1;
    }
    quad
}

/// The quad under the name the lookup-table integrator knows it by.
pub fn get_quad_vertices() -> (quad: Vec<Vertex<i8>>)
    ensures
        quad.len() == 4,
        forall|i: int| 0 <= i < 4 ==> (#[trigger] quad[i]).parts() == quad_vertex(i),
{
    get_quad()
}

/// The two triangles that make up the quad.
pub fn get_quad_indices() -> (indices: Vec<u32>)
    ensures
        indices@ == QUAD_INDICES@,
{
    let indices: Vec<u32> = vec![0, 1, 2, 1, 3, 2];
    assert(indices@ =~= QUAD_INDICES@);
    indices
}

/// A vertex at the given position with the default normal and texture
/// coordinates.
pub fn vertex(x: i8, y: i8, z: i8) -> (v: Vertex<i8>)
    ensures
        v.position@ == seq![x, y, z],
        v.normal@ == default_normal(),
        v.tex_coords@ == default_tex_coords(),
{
    let v = Vertex { position: [x, y, z], normal: [0i8, 0i8, -1i8], tex_coords: [0i8, 0i8] };
    assert(v.position@ =~= seq![x, y, z]);
    assert(v.normal@ =~= default_normal());
    assert(v.tex_coords@ =~= default_tex_coords());
    v
}

/// The cube that the skybox is drawn on: 36 positions, no normals or texture
/// coordinates of its own.
pub fn get_skybox_cube() -> (cube: Vec<Vertex<i8>>)
    ensures
        cube.len() == CUBE_VERTEX_COUNT,
        forall|i: int|
            0 <= i < CUBE_VERTEX_COUNT ==> (#[trigger] cube[i]).parts() == skybox_vertex(i),
{
    let mut cube: Vec<Vertex<i8>> = Vec::new();
    let mut i: usize = 0;
    while i < CUBE_VERTEX_COUNT
        invariant
            i <= CUBE_VERTEX_COUNT,
            cube.len() == i,
            forall|j: int| 0 <= j < i ==> (#[trigger] cube[j]).parts() == skybox_vertex(j),
        decreases CUBE_VERTEX_COUNT - i,
    {
        let p: [i8; 3] = SKYBOX_CORNERS[i];
        let v = vertex(p[0], p[1], p[2]);
        assert(v.position@ =~= p@);
        cube.push(v);
        i += 1;
    }
    cube
}

/// True of a point with the face's own coordinate at the face's side of the
/// unit cube: x = 1 on +X, x = -1 on -X, and so on.
pub open spec fn lies_on_face(position: Seq<i8>, face: CubeFace) -> bool {
    match face {
        CubeFace::PositiveX => position[0] == 1,
        CubeFace::NegativeX => position[0] == -1,
        CubeFace::PositiveY => position[1] == 1,
        CubeFace::NegativeY => position[1] == -1,
        CubeFace::PositiveZ => position[2] == 1,
        CubeFace::NegativeZ => position[2] == -1,
    }
}

/// Every vertex of the cube mesh is a corner of the unit cube that lies on the
/// face named by its normal, and the three corners of each triangle differ.
pub proof fn lemma_cube_mesh_is_a_cube(i: int)
    requires
        0 <= i < CUBE_VERTEX_COUNT,
    ensures
        ({
            let (position, normal, tex) = cube_vertex(i);
            let face = cube_block_face(i / 6);
            &&& position.len() == 3 && normal.len() == 3 && tex.len() == 2
            &&& forall|k: int| 0 <= k < 3 ==> position[k] == 1 || position[k] == -1
            &&& forall|k: int| 0 <= k < 2 ==> tex[k] == 0 || tex[k] == 1
            &&& normal == axis_seq(face.spec_axis())
            &&& lies_on_face(position, face)
        }),
        i % 3 == 0 ==> cube_vertex(i).0 != cube_vertex(i + 1).0 && cube_vertex(i + 1).0
            != cube_vertex(i + 2).0 && cube_vertex(i).0 != cube_vertex(i + 2).0,
{
    assert(forall|j: int, k: int|
        0 <= j < 36 && 0 <= k < 3 ==> CUBE_CORNERS@[j]@[k] == 1 || CUBE_CORNERS@[j]@[k] == -1);
    assert(forall|j: int| 0 <= j < 36 ==> lies_on_face(CUBE_CORNERS@[j]@, cube_block_face(j / 6)));
    if i % 3 == 0 {
        let a = cube_vertex(i).0;
        let b = cube_vertex(i + 1).0;
        let c = cube_vertex(i + 2).0;
        assert(a[0] != b[0] || a[1] != b[1] || a[2] != b[2]);
        assert(b[0] != c[0] || b[1] != c[1] || b[2] != c[2]);
        assert(a[0] != c[0] || a[1] != c[1] || a[2] != c[2]);
    }
}

/// Every vertex of the skybox cube is a corner of the unit cube on the face
/// that its block of six belongs to.
pub proof fn lemma_skybox_mesh_is_a_cube(i: int)
    requires
        0 <= i < CUBE_VERTEX_COUNT,
    ensures
        ({
            let position = skybox_vertex(i).0;
            &&& position.len() == 3
            &&& forall|k: int| 0 <= k < 3 ==> position[k] == 1 || position[k] == -1
            &&& lies_on_face(position, skybox_block_face(i / 6))
        }),
{
    assert(forall|j: int, k: int|
        0 <= j < 36 && 0 <= k < 3 ==> SKYBOX_CORNERS@[j]@[k] == 1 || SKYBOX_CORNERS@[j]@[k] == -1);
    assert(forall|j: int|
        0 <= j < 36 ==> lies_on_face(SKYBOX_CORNERS@[j]@, skybox_block_face(j / 6)));
}

} // verus!
