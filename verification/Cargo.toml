[package]
name = "voxels"
version = "0.1.0"
edition = "2021"
publish = false

[dependencies]
bytemuck = { version = "1", features = ["derive"] }
cgmath = "0.18"
wgpu = "*"
winit = "0.30"
