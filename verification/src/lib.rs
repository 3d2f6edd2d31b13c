//! Planning core of a physically based renderer.
//!
//! The library decides what is drawn, in which order and into which files or
//! texture layers; a backend that owns the graphics context carries the
//! decisions out. Everything here works on plain values, so each decision has
//! a contract that Verus proves.

pub mod cube_face;
pub mod cubemap_loader;
pub mod cubemap_render;
pub mod draw;
pub mod gpu;
pub mod gui;
pub mod ibl;
pub mod lights;
pub mod material;
pub mod mesh;
pub mod model;
pub mod paths;
pub mod pixels;
pub mod renderer;
pub mod shaders;
pub mod shapes;
pub mod skybox;
pub mod texture;
pub mod uniforms;
pub mod vertex;
