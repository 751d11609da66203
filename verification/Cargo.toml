[package]
name = "vulkan_training"
version = "0.1.0"
edition = "2021"
publish = false

[dependencies]
ash = "0.38"
ash-window = "0.13"
raw-window-handle = "0.6"
winit = "0.30"
image = { version = "*", default-features = false, features = ["png"] }
env_logger = "*"
pollster = "*"
rspirv = "*"
wgpu = "*"
vulkano = "*"
glfw = "*"
