[package]
name = "quad_engine"
version = "0.1.0"
edition = "2021"
publish = false

[dependencies]
image = { version = "=0.24.9", default-features = false, features = ["png"] }
wgpu = { version = "0.19", default-features = false, features = ["wgsl"] }
bytemuck = { version = "=1.25.2", features = ["derive"] }
anyhow = "=1.0.104"
log = "=0.4.34"
env_logger = { version = "=0.11.11", default-features = false }
pollster = "=0.3.0"
