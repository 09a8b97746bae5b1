[package]
name = "sculpt-app"
version = "0.1.0"
edition = "2021"
publish = false

[dependencies]
bytemuck = { version = "=1.25.2", features = ["derive"] }
egui = { version = "=0.37.0", features = ["persistence"] }
egui-wgpu = "=0.37.0"
egui-winit = "=0.37.0"
glam = { version = "=0.34.2", features = ["serde"] }
image = { version = "=0.25.10", default-features = false, features = ["png", "jpeg", "bmp", "tga"] }
pollster = "=0.4.0"
rayon = "=1.12.0"
rfd = "=0.17.2"
serde = { version = "=1.0.229", features = ["derive"] }
serde_json = "=1.0.154"
wgpu = "=30.0.1"
winit = { version = "=0.30.13", features = ["serde"] }
