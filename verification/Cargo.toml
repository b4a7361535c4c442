[package]
name = "aflak"
version = "0.1.0"
edition = "2021"
publish = false

[dependencies]
glium = "0.23"
imgui = "0.0.23"
imgui-glium-renderer = "0.0.23"
ndarray = "0.12"
