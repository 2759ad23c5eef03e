[package]
name = "shader_preview"
version = "0.1.0"
edition = "2021"
publish = false

[dependencies]
anyhow = "1"
wgpu = "24"
winit = "0.30"
