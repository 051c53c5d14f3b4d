[package]
name = "render_loop"
version = "0.1.0"
edition = "2021"
publish = false

[dependencies]
futures = "*"
wgpu = "*"
winit = "*"
