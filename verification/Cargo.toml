[package]
name = "taca"
version = "0.1.0"
edition = "2021"
publish = false

[dependencies]
bytemuck = "=1.25.2"
lz4_flex = "=0.11.6"
naga = { version = "=0.20.0", features = ["spv-in", "glsl-out"] }
wasmer = { version = "4", default-features = false, features = ["sys", "cranelift"] }
wgpu = { version = "0.20", default-features = false, features = ["spirv"] }
