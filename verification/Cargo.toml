[package]
name = "xrshell"
version = "0.1.0"
edition = "2021"
publish = false

[dependencies]
anyhow = "1"
ash = "0.38"
bytemuck = { version = "1", features = ["derive"] }
cgmath = "0.18"
ctrlc = "3"
env_logger = "0.11"
log = "0.4"
openxr = { version = "0.19", default-features = false, features = ["loaded"] }
wgpu = "22"
wgpu-hal = { version = "22", features = ["vulkan"] }
wgpu-types = "22"
