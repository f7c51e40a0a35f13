[package]
name = "gpu_core"
version = "0.1.0"
edition = "2021"
publish = false

[dependencies]
anyhow = "*"
ash = "*"
gpu-allocator = "*"
notify = "*"
parking_lot = "*"
shaderc = "*"
