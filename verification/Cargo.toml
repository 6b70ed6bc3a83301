[package]
name = "instance_pool"
version = "0.1.0"
edition = "2021"
publish = false

[dependencies]
anyhow = "1"
bytemuck = { version = "1", features = ["derive"] }
cgmath = "0.18"
egui = { version = "0.26", default-features = false }
egui-wgpu = { version = "0.26", default-features = false }
env_logger = { version = "0.10", default-features = false }
image = { version = "0.24", default-features = false, features = ["png", "jpeg"] }
log = "0.4"
pollster = "0.3"
tobj = { version = "4", features = ["async"] }
wgpu = { version = "0.19", default-features = false, features = ["wgsl"] }
