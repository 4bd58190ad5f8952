[package]
name = "move_square"
version = "0.1.0"
edition = "2021"
publish = false

[dependencies]
rand = "*"
piston = "*"
piston2d-graphics = "*"
piston2d-opengl_graphics = "*"
pistoncore-sdl2_window = "*"
shader_version = "*"
