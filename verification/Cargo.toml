[package]
name = "simple_gl"
version = "0.1.0"
edition = "2021"
publish = false

[dependencies]
anyhow = "1"
gl = "0.14"
nalgebra = "*"
sdl2 = "*"
