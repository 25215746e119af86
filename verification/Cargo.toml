[package]
name = "rugu"
version = "0.1.0"
edition = "2021"
publish = false

[dependencies]
bytemuck = { version = "1", features = ["derive"] }
cgmath = "0.18"
log = "0.4"
pollster = "0.3"
pretty_env_logger = "0.5"
wgpu = "0.15"
winit = { version = "0.28", default-features = false, features = ["x11"] }
