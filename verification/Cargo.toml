[package]
name = "obj_viewer"
version = "0.1.0"
edition = "2021"
publish = false

[dependencies]
bytemuck = "*"
color-eyre = "*"
glam = "*"
glow = "*"
sdl3 = "*"
wavefront = "*"
