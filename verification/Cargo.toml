[package]
name = "bi_turbo"
version = "0.1.0"
edition = "2021"
publish = false

[dependencies]
ash = "0.37"
assets_manager = "*"
bevy_ecs = "0.10"
cgmath = "0.18"
glam = "0.24"
glfw = "0.52"
gpu-allocator = "0.22"
serde = { version = "1", features = ["derive"] }
serde_derive = "1"
serde_json = "1"
shaderc = "0.8"
tracing = "0.1"
tracing-subscriber = "0.3"
