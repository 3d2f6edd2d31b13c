//! Names of resources that live on the graphics device.
//!
//! The library never touches the device. It refers to a texture, a buffer
//! or a program by the number under which the backend knows it.

use vstd::prelude::*;

verus! {

/// Name of a texture: a 2D image or a cubemap.
#[derive(Clone, Copy, Debug, PartialEq, Eq, Structural)]
pub struct TextureId(pub u32);

/// Name of a vertex or index buffer.
#[derive(Clone, Copy, Debug, PartialEq, Eq, Structural)]
pub struct BufferId(pub u32);

/// Name of a compiled program.
#[derive(Clone, Copy, Debug, PartialEq, Eq, Structural)]
pub struct ProgramId(pub u32);

} // verus!
