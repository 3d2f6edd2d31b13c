//! Fixed-function state of a draw call.

use vstd::prelude::*;

verus! {

/// When a fragment passes the depth test.
#[derive(Clone, Copy, Debug, PartialEq, Eq, Structural)]
pub enum DepthTest {
    /// Every fragment passes.
    Overwrite,
    /// A fragment passes if it is nearer than what is stored.
    IfLess,
    /// A fragment passes if it is nearer than what is stored or as far.
    IfLessOrEqual,
}

/// Which triangles are dropped by the side they show.
#[derive(Clone, Copy, Debug, PartialEq, Eq, Structural)]
pub enum BackfaceCullingMode {
    CullingDisabled,
    CullCounterClockwise,
    CullClockwise,
}

/// How a fragment is combined with what the target already holds.
#[derive(Clone, Copy, Debug, PartialEq, Eq, Structural)]
pub enum Blend {
    /// The fragment replaces the stored colour.
    AlwaysReplace,
    /// Colour is weighted by the fragment's alpha; the fragment's alpha
    /// replaces the stored one.
    SourceAlpha,
}

/// The state a material asks for when it draws.
#[derive(Clone, Copy, Debug, PartialEq, Eq, Structural)]
pub struct DrawParameters {
    pub depth_test: DepthTest,
    pub depth_write: bool,
    pub backface_culling: BackfaceCullingMode,
    pub blend: Blend,
}

impl DrawParameters {
    /// No depth test, no depth write, no culling, no blending.
    pub open spec fn spec_default() -> DrawParameters {
        DrawParameters {
            depth_test: DepthTest::Overwrite,
            depth_write: false,
            backface_culling: BackfaceCullingMode::CullingDisabled,
            blend: Blend::AlwaysReplace,
        }
    }
}

impl Default for DrawParameters {
    fn default() -> (p: Self)
        ensures
            p == DrawParameters::spec_default(),
    {
        DrawParameters {
            depth_test: DepthTest::Overwrite,
            depth_write: false,
            backface_culling: BackfaceCullingMode::CullingDisabled,
            blend: Blend::AlwaysReplace,
        }
    }
}

} // verus!
