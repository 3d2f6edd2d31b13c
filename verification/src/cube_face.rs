//! The six faces of a cubemap: their fixed order, their names on disk, their
//! OpenGL targets and the camera bases used to render into them.

use vstd::prelude::*;

verus! {

/// OpenGL name of the first cubemap face target, `TEXTURE_CUBE_MAP_POSITIVE_X`.
/// The other five follow it in face order.
pub const TEXTURE_CUBE_MAP_POSITIVE_X: u32 = 0x8515;

/// Number of faces of a cubemap.
pub const FACE_COUNT: usize = 6;

/// One face of a cubemap, named by the axis it lies on.
#[derive(Clone, Copy, Debug, PartialEq, Eq, Structural)]
pub enum CubeFace {
    PositiveX,
    NegativeX,
    PositiveY,
    NegativeY,
    PositiveZ,
    NegativeZ,
}

/// An integer vector; the camera bases only ever use the values -1, 0 and 1.
#[derive(Clone, Copy, Debug, PartialEq, Eq, Structural)]
pub struct Axis {
    pub x: i8,
    pub y: i8,
    pub z: i8,
}

/// Where the camera looks and what it takes as up while one face is rendered.
#[derive(Clone, Copy, Debug, PartialEq, Eq, Structural)]
pub struct CameraBasis {
    pub view_direction: Axis,
    pub up_vector: Axis,
}

impl Axis {
    /// The scalar product of two vectors.
    pub open spec fn dot(self, other: Axis) -> int {
        self.x * other.x + self.y * other.y + self.z * other.z
    }

    /// True of the six vectors of length one that lie on a coordinate axis.
    pub open spec fn is_unit(self) -> bool {
        &&& -1 <= self.x <= 1
        &&& -1 <= self.y <= 1
        &&& -1 <= self.z <= 1
        &&& self.dot(self) == 1
    }
}

impl CameraBasis {
    /// A usable basis looks along one axis and takes a perpendicular axis as up.
    pub open spec fn wf(self) -> bool {
        &&& self.view_direction.is_unit()
        &&& self.up_vector.is_unit()
        &&& self.view_direction.dot(self.up_vector) == 0
    }
}

/// The vector with the given components, each of them -1, 0 or 1.
pub open spec fn axis(x: int, y: int, z: int) -> Axis {
    Axis { x: x as i8, y: y as i8, z: z as i8 }
}

/// The face at each position of the fixed order +X, -X, +Y, -Y, +Z, -Z.
pub open spec fn face_at(index: int) -> CubeFace {
    if index == 0 {
        CubeFace::PositiveX
    } else if index == 1 {
        CubeFace::NegativeX
    } else if index == 2 {
        CubeFace::PositiveY
    } else if index == 3 {
        CubeFace::NegativeY
    } else if index == 4 {
        CubeFace::PositiveZ
    } else {
        CubeFace::NegativeZ
    }
}

impl CubeFace {
    /// Position of the face in the fixed order.
    pub open spec fn spec_index(self) -> int {
        match self {
            CubeFace::PositiveX => 0,
            CubeFace::NegativeX => 1,
            CubeFace::PositiveY => 2,
            CubeFace::NegativeY => 3,
            CubeFace::PositiveZ => 4,
            CubeFace::NegativeZ => 5,
        }
    }

    /// Base name of the file that holds the face.
    pub open spec fn spec_file_base_name(self) -> Seq<char> {
        match self {
            CubeFace::PositiveX => "right"@,
            CubeFace::NegativeX => "left"@,
            CubeFace::PositiveY => "top"@,
            CubeFace::NegativeY => "bottom"@,
            CubeFace::PositiveZ => "front"@,
            CubeFace::NegativeZ => "back"@,
        }
    }

    /// Position of the face in the fixed order.
    pub fn index(self) -> (i: usize)
        ensures
            i == self.spec_index(),
            i < FACE_COUNT,
            face_at(i as int) == self,
    {
        match self {
            CubeFace::PositiveX => 0,
            CubeFace::NegativeX => 1,
            CubeFace::PositiveY => 2,
            CubeFace::NegativeY => 3,
            CubeFace::PositiveZ => 4,
            CubeFace::NegativeZ => 5,
        }
    }

    /// The face at a position of the fixed order, if there is one.
    pub fn from_index(index: usize) -> (face: Option<CubeFace>)
        ensures
            index < FACE_COUNT ==> face == Some(face_at(index as int)),
            index >= FACE_COUNT ==> face is None,
    {
        if index == 0 {
            Some(CubeFace::PositiveX)
        } else if index == 1 {
            Some(CubeFace::NegativeX)
        } else if index == 2 {
            Some(CubeFace::PositiveY)
        } else if index == 3 {
            Some(CubeFace::NegativeY)
        } else if index == 4 {
            Some(CubeFace::PositiveZ)
        } else if index == 5 {
            Some(CubeFace::NegativeZ)
        } else {
            None
        }
    }

    /// Base name of the file that holds the face.
    pub fn file_base_name(self) -> (name: &'static str)
        ensures
            name@ == self.spec_file_base_name(),
    {
        match self {
            CubeFace::PositiveX => "right",
            CubeFace::NegativeX => "left",
            CubeFace::PositiveY => "top",
            CubeFace::NegativeY => "bottom",
            CubeFace::PositiveZ => "front",
            CubeFace::NegativeZ => "back",
        }
    }
}

impl CubeFace {
    /// The axis the face lies on, pointing away from the cube's centre.
    pub open spec fn spec_axis(self) -> Axis {
        match self {
            CubeFace::PositiveX => axis(1, 0, 0),
            CubeFace::NegativeX => axis(-1, 0, 0),
            CubeFace::PositiveY => axis(0, 1, 0),
            CubeFace::NegativeY => axis(0, -1, 0),
            CubeFace::PositiveZ => axis(0, 0, 1),
            CubeFace::NegativeZ => axis(0, 0, -1),
        }
    }

    /// Camera basis for rendering straight into the face's texture layer:
    /// the camera looks along the face's own axis.
    pub open spec fn spec_layer_basis(self) -> CameraBasis {
        CameraBasis {
            view_direction: self.spec_axis(),
            up_vector: match self {
                CubeFace::PositiveY => axis(0, 0, 1),
                CubeFace::NegativeY => axis(0, 0, -1),
                _ => axis(0, -1, 0),
            },
        }
    }

    /// Camera basis for baking the face into an image file: the camera looks
    /// along the face's own axis, as it does for a layer. The image is kept
    /// upright, so the four side faces take +Y as up; the top face takes -Z
    /// and the bottom face +Z.
    pub open spec fn spec_bake_basis(self) -> CameraBasis {
        CameraBasis {
            view_direction: self.spec_axis(),
            up_vector: match self {
                CubeFace::PositiveY => axis(0, 0, -1),
                CubeFace::NegativeY => axis(0, 0, 1),
                _ => axis(0, 1, 0),
            },
        }
    }

    /// OpenGL target of the face.
    pub open spec fn spec_gl_enum(self) -> int {
        TEXTURE_CUBE_MAP_POSITIVE_X + self.spec_index()
    }

    /// OpenGL target of the face: the targets follow the face order.
    pub fn gl_enum(self) -> (target: u32)
        ensures
            target == self.spec_gl_enum(),
    {
        match self {
            CubeFace::PositiveX => TEXTURE_CUBE_MAP_POSITIVE_X,
            CubeFace::NegativeX => TEXTURE_CUBE_MAP_POSITIVE_X + 1,
            CubeFace::PositiveY => TEXTURE_CUBE_MAP_POSITIVE_X + 2,
            CubeFace::NegativeY => TEXTURE_CUBE_MAP_POSITIVE_X + 3,
            CubeFace::PositiveZ => TEXTURE_CUBE_MAP_POSITIVE_X + 4,
            CubeFace::NegativeZ => TEXTURE_CUBE_MAP_POSITIVE_X + 5,
        }
    }

    /// The face that an OpenGL target names; `None` for any other number.
    pub fn from_gl_enum(side: u32) -> (face: Option<CubeFace>)
        ensures
            match face {
                Some(f) => f.spec_gl_enum() == side,
                None => side < TEXTURE_CUBE_MAP_POSITIVE_X || side >= TEXTURE_CUBE_MAP_POSITIVE_X
                    + FACE_COUNT,
            },
    {
        if side < TEXTURE_CUBE_MAP_POSITIVE_X {
            None
        } else {
            let offset: u32 = side - TEXTURE_CUBE_MAP_POSITIVE_X;
            if offset == 0 {
                Some(CubeFace::PositiveX)
            } else if offset == 1 {
                Some(CubeFace::NegativeX)
            } else if offset == 2 {
                Some(CubeFace::PositiveY)
            } else if offset == 3 {
                Some(CubeFace::NegativeY)
            } else if offset == 4 {
                Some(CubeFace::PositiveZ)
            } else if offset == 5 {
                Some(CubeFace::NegativeZ)
            } else {
                None
            }
        }
    }

    /// Camera basis for rendering into the face's texture layer.
    pub fn layer_basis(self) -> (basis: CameraBasis)
        ensures
            basis == self.spec_layer_basis(),
            basis.wf(),
            basis.view_direction == self.spec_axis(),
    {
        match self {
            CubeFace::PositiveX => CameraBasis {
                view_direction: Axis { x: 1, y: 0, z: 0 },
                up_vector: Axis { x: 0, y: -1, z: 0 },
            },
            CubeFace::NegativeX => CameraBasis {
                view_direction: Axis { x: -1, y: 0, z: 0 },
                up_vector: Axis { x: 0, y: -1, z: 0 },
            },
            CubeFace::PositiveY => CameraBasis {
                view_direction: Axis { x: 0, y: 1, z: 0 },
                up_vector: Axis { x: 0, y: 0, z: 1 },
            },
            CubeFace::NegativeY => CameraBasis {
                view_direction: Axis { x: 0, y: -1, z: 0 },
                up_vector: Axis { x: 0, y: 0, z: -1 },
            },
            CubeFace::PositiveZ => CameraBasis {
                view_direction: Axis { x: 0, y: 0, z: 1 },
                up_vector: Axis { x: 0, y: -1, z: 0 },
            },
            CubeFace::NegativeZ => CameraBasis {
                view_direction: Axis { x: 0, y: 0, z: -1 },
                up_vector: Axis { x: 0, y: -1, z: 0 },
            },
        }
    }

    /// Camera basis for baking the face into an image file.
    pub fn bake_basis(self) -> (basis: CameraBasis)
        ensures
            basis == self.spec_bake_basis(),
            basis.wf(),
            basis.view_direction == self.spec_axis(),
    {
        match self {
            CubeFace::PositiveX => CameraBasis {
                view_direction: Axis { x: 1, y: 0, z: 0 },
                up_vector: Axis { x: 0, y: 1, z: 0 },
            },
            CubeFace::NegativeX => CameraBasis {
                view_direction: Axis { x: -1, y: 0, z: 0 },
                up_vector: Axis { x: 0, y: 1, z: 0 },
            },
            CubeFace::PositiveY => CameraBasis {
                view_direction: Axis { x: 0, y: 1, z: 0 },
                up_vector: Axis { x: 0, y: 0, z: -1 },
            },
            CubeFace::NegativeY => CameraBasis {
                view_direction: Axis { x: 0, y: -1, z: 0 },
                up_vector: Axis { x: 0, y: 0, z: 1 },
            },
            CubeFace::PositiveZ => CameraBasis {
                view_direction: Axis { x: 0, y: 0, z: 1 },
                up_vector: Axis { x: 0, y: 1, z: 0 },
            },
            CubeFace::NegativeZ => CameraBasis {
                view_direction: Axis { x: 0, y: 0, z: -1 },
                up_vector: Axis { x: 0, y: 1, z: 0 },
            },
        }
    }
}

/// The six faces in their fixed order.
pub fn all_faces() -> (faces: Vec<CubeFace>)
    ensures
        faces.len() == FACE_COUNT,
        forall|i: int| 0 <= i < FACE_COUNT ==> faces[i] == face_at(i),
{
    vec![
        CubeFace::PositiveX,
        CubeFace::NegativeX,
        CubeFace::PositiveY,
        CubeFace::NegativeY,
        CubeFace::PositiveZ,
        CubeFace::NegativeZ,
    ]
}

/// The face order is a one-to-one numbering of the six faces by 0..6.
pub proof fn lemma_face_order_is_one_to_one(face: CubeFace, index: int)
    requires
        0 <= index < FACE_COUNT,
    ensures
        0 <= face.spec_index() < FACE_COUNT,
        face_at(face.spec_index()) == face,
        face_at(index).spec_index() == index,
{
}

/// Two faces that share a file name, an OpenGL target or an axis are the same
/// face: no name, target or axis is used twice.
pub proof fn lemma_faces_are_told_apart(a: CubeFace, b: CubeFace)
    ensures
        a.spec_file_base_name() == b.spec_file_base_name() ==> a == b,
        a.spec_gl_enum() == b.spec_gl_enum() ==> a == b,
        a.spec_axis() == b.spec_axis() ==> a == b,
{
    reveal_strlit("right");
    reveal_strlit("left");
    reveal_strlit("top");
    reveal_strlit("bottom");
    reveal_strlit("front");
    reveal_strlit("back");
    if a.spec_file_base_name() == b.spec_file_base_name() {
        assert(a.spec_file_base_name().len() == b.spec_file_base_name().len());
        assert(a.spec_file_base_name()[0] == b.spec_file_base_name()[0]);
    }
}

/// Each of the two camera tables covers every axis direction exactly once:
/// whatever unit axis is asked for, one face and only one looks along it.
pub proof fn lemma_bases_cover_every_direction(direction: Axis)
    requires
        direction.is_unit(),
    ensures
        exists|f: CubeFace| f.spec_layer_basis().view_direction == direction,
        exists|f: CubeFace| f.spec_bake_basis().view_direction == direction,
        forall|f: CubeFace, g: CubeFace|
            f.spec_layer_basis().view_direction == g.spec_layer_basis().view_direction ==> f == g,
        forall|f: CubeFace, g: CubeFace|
            f.spec_bake_basis().view_direction == g.spec_bake_basis().view_direction ==> f == g,
{
    let d = direction;
    let (x, y, z) = (d.x as int, d.y as int, d.z as int);
    assert(x * x + y * y + z * z == 1);
    assert((x != 0 ==> x * x == 1) && (y != 0 ==> y * y == 1) && (z != 0 ==> z * z == 1)
        && x * x >= 0 && y * y >= 0 && z * z >= 0) by (nonlinear_arith)
        requires
            -1 <= x <= 1,
            -1 <= y <= 1,
            -1 <= z <= 1,
    ;
    if d.x == 1 {
        assert(d == CubeFace::PositiveX.spec_axis());
    } else if d.x == -1 {
        assert(d == CubeFace::NegativeX.spec_axis());
    } else if d.y == 1 {
        assert(d == CubeFace::PositiveY.spec_axis());
    } else if d.y == -1 {
        assert(d == CubeFace::NegativeY.spec_axis());
    } else if d.z == 1 {
        assert(d == CubeFace::PositiveZ.spec_axis());
    } else {
        assert(d.z == -1);
        assert(d == CubeFace::NegativeZ.spec_axis());
    }
    let face = choose|f: CubeFace| f.spec_axis() == d;
    assert(face.spec_layer_basis().view_direction == d);
    assert(face.spec_bake_basis().view_direction == d);
}

/// Both camera tables look along the axis of the face they render, so the
/// face at position `index` of the fixed order is seen along the direction
/// at that position of +X, -X, +Y, -Y, +Z, -Z.
pub proof fn lemma_bases_follow_the_face_order(face: CubeFace)
    ensures
        face.spec_layer_basis().view_direction == face.spec_axis(),
        face.spec_bake_basis().view_direction == face.spec_axis(),
        face.spec_layer_basis().wf(),
        face.spec_bake_basis().wf(),
{
    match face {
        CubeFace::PositiveX => {
            assert(face.spec_layer_basis().wf() && face.spec_bake_basis().wf());
        },
        CubeFace::NegativeX => {
            assert(face.spec_layer_basis().wf() && face.spec_bake_basis().wf());
        },
        CubeFace::PositiveY => {
            assert(face.spec_layer_basis().wf() && face.spec_bake_basis().wf());
        },
        CubeFace::NegativeY => {
            assert(face.spec_layer_basis().wf() && face.spec_bake_basis().wf());
        },
        CubeFace::PositiveZ => {
            assert(face.spec_layer_basis().wf() && face.spec_bake_basis().wf());
        },
        CubeFace::NegativeZ => {
            let z = face.spec_axis().z as int;
            assert(z * z == 1) by (nonlinear_arith)
                requires
                    z == -1,
            ;
            assert(face.spec_layer_basis().wf() && face.spec_bake_basis().wf());
        },
    }
}

} // verus!
