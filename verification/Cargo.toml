[package]
name = "spiderweb_sim"
version = "0.1.0"
edition = "2021"
publish = false

[dependencies]
nalgebra = "0.32"
rand = "0.8"
csv = "1"
gl = "0.14"
glfw = "*"
imgui = "*"
imgui-glfw-support = "*"
imgui-opengl-renderer = "*"
