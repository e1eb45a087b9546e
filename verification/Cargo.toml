[package]
name = "wgpu-test"
version = "0.1.0"
edition = "2021"
publish = false

[dependencies]
bytemuck = { version = "*", features = ["derive"] }
glam = "*"
image = { version = "*", default-features = false, features = ["png"] }
pollster = "*"
sdl3 = { version = "*", features = ["raw-window-handle"] }
tobj = "*"
wgpu = "*"
