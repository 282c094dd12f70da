[package]
name = "mandelbrot_viewer"
version = "0.1.0"
edition = "2021"
publish = false

[dependencies]
bytemuck = "1"
egui = "0.22"
egui-wgpu = "0.22"
egui-winit = { version = "0.22", default-features = false }
env_logger = "0.10"
wgpu = "0.16"
winit = "0.28"
