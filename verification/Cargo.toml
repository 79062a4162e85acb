[package]
name = "sitelen"
version = "0.1.0"
edition = "2021"
publish = false

[dependencies]
bytemuck = { version = "1", features = ["derive"] }
env_logger = "0.11"
glam = "0.29"
image = { version = "0.25", default-features = false, features = ["png"] }
pollster = "0.4"
wgpu = "25"
winit = "0.30"
