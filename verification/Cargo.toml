[package]
name = "genesis"
version = "0.1.0"
edition = "2021"
publish = false

[dependencies]
wgpu = { version = "=0.19.4", default-features = false, features = ["wgsl"] }
wgpu-types = "=0.19.2"
image = { version = "=0.24.9", default-features = false, features = ["png"] }
cgmath = "=0.18.0"
bytemuck = { version = "=1.25.2", features = ["derive"] }
pollster = "=0.3.0"
log = "=0.4.34"
env_logger = { version = "=0.11.11", default-features = false }
