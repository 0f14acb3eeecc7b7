[package]
name = "raytracer_core"
version = "0.1.0"
edition = "2021"
publish = false

[dependencies]
rand = "0.8"
wgpu = "0.15"
pollster = "0.3"
futures-intrusive = "0.5"
