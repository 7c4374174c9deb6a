[package]
name = "step_viewer_core"
version = "0.1.0"
edition = "2021"
publish = false

[dependencies]
bytemuck = { version = "1", features = ["derive"] }
cgmath = "0.18"
glam = "0.29"
log = "0.4"
truck-meshalgo = "0.4"
wgpu = "0.20"
winit = "0.30"
