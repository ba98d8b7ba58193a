[package]
name = "foux_engine"
version = "0.1.0"
edition = "2021"
publish = false

[dependencies]
cgmath = "0.18"
gl = "0.14"
glfw = "*"
nalgebra-glm = "*"
