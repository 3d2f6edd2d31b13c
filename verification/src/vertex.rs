//! The vertex layout shared by every mesh.

use vstd::prelude::*;

verus! {

/// One vertex of a mesh. The scalar type is left open: the fixed meshes of this
/// library use small integers, imported meshes carry whatever the importer
/// read.
#[derive(Clone, Copy, Debug)]
pub struct Vertex<S> {
    pub position: [S; 3],
    pub normal: [S; 3],
    pub tex_coords: [S; 2],
}

/// Position of a vertex for which none is given.
pub open spec fn default_position() -> Seq<i8> {
    seq![0i8, 0i8, 1i8]
}

/// Normal of a vertex for which none is given.
pub open spec fn default_normal() -> Seq<i8> {
    seq![0i8, 0i8, (-1) as i8]
}

/// Texture coordinates of a vertex for which none are given.
pub open spec fn default_tex_coords() -> Seq<i8> {
    seq![0i8, 0i8]
}

impl<S> Vertex<S> {
    /// The vertex as three sequences: position, normal, texture coordinates.
    pub open spec fn parts(self) -> (Seq<S>, Seq<S>, Seq<S>) {
        (self.position@, self.normal@, self.tex_coords@)
    }
}

impl Default for Vertex<i8> {
    /// A vertex on the +Z axis that faces -Z, with zero texture coordinates.
    fn default() -> (v: Self)
        ensures
            v.position@ == default_position(),
            v.normal@ == default_normal(),
            v.tex_coords@ == default_tex_coords(),
    {
        let v = Vertex { position: [0i8, 0i8, 1i8], normal: [0i8, 0i8, -1i8], tex_coords: [0i8, 0i8] };
        assert(v.position@ =~= default_position());
        assert(v.normal@ =~= default_normal());
        assert(v.tex_coords@ =~= default_tex_coords());
        v
    }
}

} // verus!
