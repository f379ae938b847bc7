[package]
name = "nbody"
version = "0.1.0"
edition = "2021"
publish = false

[dependencies]
bytemuck = "1"
egui = "0.29"
egui-wgpu = { version = "0.29", features = ["winit"] }
egui-winit = { version = "0.29", default-features = false, features = ["wayland", "x11"] }
env_logger = "0.11"
log = "0.4"
pollster = "0.3"
rand = "0.8"
wgpu = "22"
winit = "0.30"
