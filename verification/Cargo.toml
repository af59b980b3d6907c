[package]
name = "gpu_picking"
version = "0.1.0"
edition = "2021"
publish = false

[dependencies]
bevy_derive = "0.15"
bevy_ecs = "0.15"
bevy_math = "0.15"
bevy_utils = "0.15"
half = "2"
wgpu = { version = "23", default-features = false }
