[package]
name = "pacman"
version = "0.1.0"
edition = "2021"
publish = false

[dependencies]
cgmath = "*"
piston = "*"
piston2d-graphics = "*"
piston2d-opengl_graphics = "*"
pistoncore-glutin_window = "*"
