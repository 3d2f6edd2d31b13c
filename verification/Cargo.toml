[package]
name = "opengl_render"
version = "0.1.0"
edition = "2021"
publish = false

[dependencies]
image = "0.24"
rayon = "1"
gl = "0.14"
glium = "0.32"
cgmath = "0.18"
nalgebra = "0.32"
tobj = "3"
