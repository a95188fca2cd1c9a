[package]
name = "render_core"
version = "0.1.0"
edition = "2021"
publish = false

[dependencies]
cgmath = "0.18"
pollster = "0.2"
safe-transmute = "0.11"
wgpu = "0.11"
winit = "0.25"
