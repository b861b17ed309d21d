[package]
name = "scene2d"
version = "0.1.0"
edition = "2021"
publish = false

[dependencies]
wgpu = { version = "0.19", default-features = false, features = ["wgsl"] }
pollster = "0.3"
env_logger = "0.11"
coarsetime = "0.1"
