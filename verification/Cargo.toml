[package]
name = "atay2d"
version = "0.1.0"
edition = "2021"
publish = false

[dependencies]
image = "0.24"
wgpu = "0.15"
winit = "0.28"
bytemuck = { version = "1", features = ["derive"] }
log = "0.4"
env_logger = "0.10"
