[package]
name = "beamform"
version = "0.1.0"
edition = "2021"
publish = false

[dependencies]
wgpu = "*"
bytemuck = { version = "*", features = ["derive"] }
pollster = "*"
futures-intrusive = "*"
