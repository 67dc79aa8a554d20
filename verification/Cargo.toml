[package]
name = "wgpu_editor"
version = "0.1.0"
edition = "2021"
publish = false

[dependencies]
wgpu = "=0.17.2"
bytemuck = { version = "=1.25.2", features = ["derive"] }
pollster = "=0.3.0"
baseview = "0.1"
