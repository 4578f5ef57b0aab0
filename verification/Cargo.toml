[package]
name = "gpu_commands"
version = "0.1.0"
edition = "2021"
publish = false

[dependencies]
wgpu-types = { version = "*", default-features = false }
