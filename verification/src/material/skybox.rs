//! The material that draws the environment behind everything else.

use crate::cubemap_loader::CubemapType;
use crate::draw::DrawParameters;
use crate::gpu::ProgramId;
use crate::material::{MaterialKind, MaterialRef};
use vstd::prelude::*;

verus! {

/// The skybox material: a program and the cubemap it shows.
#[derive(Clone, Copy, Debug, PartialEq, Eq, Structural)]
pub struct SkyboxMat {
    program: ProgramId,
    skybox: CubemapType,
    instance: u32,
}

impl SkyboxMat {
    pub closed spec fn spec_program(&self) -> ProgramId {
        self.program
    }

    pub closed spec fn spec_cubemap(&self) -> CubemapType {
        self.skybox
    }

    pub closed spec fn spec_instance(&self) -> u32 {
        self.instance
    }

    /// The material as a render entry names it.
    pub open spec fn spec_material_ref(&self) -> MaterialRef {
        MaterialRef { kind: MaterialKind::Skybox, instance: self.spec_instance() }
    }

    /// A skybox material that shows the given cubemap.
    pub fn load_from_cubemap(program: ProgramId, cubemap: CubemapType, instance: u32) -> (m: Self)
        ensures
            m.spec_program() == program,
            m.spec_cubemap() == cubemap,
            m.spec_instance() == instance,
    {
        SkyboxMat { program, skybox: cubemap, instance }
    }

    /// The cubemap that is shown.
    pub fn get_cubemap(&self) -> (c: CubemapType)
        ensures
            c == self.spec_cubemap(),
    {
        self.skybox
    }

    /// The program that draws.
    pub fn program(&self) -> (p: ProgramId)
        ensures
            p == self.spec_program(),
    {
        self.program
    }

    /// The material as a render entry names it.
    pub fn material_ref(&self) -> (m: MaterialRef)
        ensures
            m == self.spec_material_ref(),
    {
        MaterialRef { kind: MaterialKind::Skybox, instance: self.instance }
    }

    /// The state the skybox draws with.
    pub fn draw_parameters(&self) -> (p: DrawParameters)
        ensures
            p == MaterialKind::Skybox.spec_draw_parameters(),
    {
        MaterialKind::Skybox.draw_parameters()
    }

    /// Any two skybox materials count as equal; a material of another kind
    /// never equals one.
    pub fn equal(&self, other: MaterialKind) -> (e: bool)
        ensures
            e == (other == MaterialKind::Skybox),
    {
        other.same_material(MaterialKind::Skybox)
    }
}

} // verus!
