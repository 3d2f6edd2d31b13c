//! Materials: what a draw call needs besides geometry.
//!
//! A material of the backend carries a program and its uniforms. Here a
//! material is known by its kind, which decides the state it draws with and
//! the bucket its draw calls are gathered in.

pub mod equirectangle;
pub mod pbr;
pub mod skybox;

use crate::draw::{BackfaceCullingMode, Blend, DepthTest, DrawParameters};
use vstd::prelude::*;

verus! {

/// The kind of a material. Draw calls of one kind are drawn together.
#[derive(Clone, Copy, Debug, PartialEq, Eq, Structural)]
pub enum MaterialKind {
    /// One flat colour.
    Simple,
    /// Phong shading with one light.
    Phong,
    /// Ambient, diffuse and specular terms with one light.
    Basic,
    /// Physically based shading lit by the environment.
    Pbr,
    /// The environment itself, drawn at the far plane.
    Skybox,
    /// A material defined by the caller, told apart by a number.
    Custom(u32),
}

/// A material instance of the backend: its kind and the number under which
/// the backend finds it again.
#[derive(Clone, Copy, Debug, PartialEq, Eq, Structural)]
pub struct MaterialRef {
    pub kind: MaterialKind,
    pub instance: u32,
}

impl MaterialKind {
    /// The number that stands for the kind; no two kinds share one.
    pub open spec fn spec_type_tag(self) -> u64 {
        match self {
            MaterialKind::Simple => 0,
            MaterialKind::Phong => 1,
            MaterialKind::Basic => 2,
            MaterialKind::Pbr => 3,
            MaterialKind::Skybox => 4,
            MaterialKind::Custom(n) => (5 + n) as u64,
        }
    }

    /// The state that a material of this kind draws with.
    pub open spec fn spec_draw_parameters(self) -> DrawParameters {
        match self {
            MaterialKind::Skybox => DrawParameters {
                depth_test: DepthTest::IfLessOrEqual,
                depth_write: true,
                backface_culling: BackfaceCullingMode::CullCounterClockwise,
                blend: Blend::AlwaysReplace,
            },
            MaterialKind::Pbr => DrawParameters {
                depth_test: DepthTest::IfLess,
                depth_write: true,
                backface_culling: BackfaceCullingMode::CullCounterClockwise,
                blend: Blend::SourceAlpha,
            },
            _ => DrawParameters {
                depth_test: DepthTest::IfLess,
                depth_write: true,
                backface_culling: BackfaceCullingMode::CullCounterClockwise,
                blend: Blend::AlwaysReplace,
            },
        }
    }

    /// The number that stands for the kind.
    pub fn type_tag(self) -> (tag: u64)
        ensures
            tag == self.spec_type_tag(),
    {
        match self {
            MaterialKind::Simple => 0,
            MaterialKind::Phong => 1,
            MaterialKind::Basic => 2,
            MaterialKind::Pbr => 3,
            MaterialKind::Skybox => 4,
            MaterialKind::Custom(n) => 5 + (n as u64),
        }
    }

    /// The state that a material of this kind draws with. Opaque materials
    /// test depth with less-than; the skybox, which lies at the far plane
    /// where a cleared depth buffer already stands, tests with
    /// less-or-equal; only the physically based material blends.
    pub fn draw_parameters(self) -> (p: DrawParameters)
        ensures
            p == self.spec_draw_parameters(),
    {
        match self {
            MaterialKind::Skybox => DrawParameters {
                depth_test: DepthTest::IfLessOrEqual,
                depth_write: true,
                backface_culling: BackfaceCullingMode::CullCounterClockwise,
                blend: Blend::AlwaysReplace,
            },
            MaterialKind::Pbr => DrawParameters {
                depth_test: DepthTest::IfLess,
                depth_write: true,
                backface_culling: BackfaceCullingMode::CullCounterClockwise,
                blend: Blend::SourceAlpha,
            },
            _ => DrawParameters {
                depth_test: DepthTest::IfLess,
                depth_write: true,
                backface_culling: BackfaceCullingMode::CullCounterClockwise,
                blend: Blend::AlwaysReplace,
            },
        }
    }

    /// True when both materials are of one kind.
    pub fn same_material(self, other: MaterialKind) -> (same: bool)
        ensures
            same == (self == other),
            same == (self.spec_type_tag() == other.spec_type_tag()),
    {
        proof {
            lemma_type_tag_is_one_to_one(self, other);
        }
        self.type_tag() == other.type_tag()
    }
}

/// Kinds that differ have tags that differ, so no bucket mixes two kinds.
pub proof fn lemma_type_tag_is_one_to_one(a: MaterialKind, b: MaterialKind)
    ensures
        a.spec_type_tag() == b.spec_type_tag() <==> a == b,
{
}

} // verus!
