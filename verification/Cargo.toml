[package]
name = "framework"
version = "0.1.0"
edition = "2021"
publish = false

[dependencies]
anyhow = "1"
bytemuck = "1"
cgmath = "0.18"
env_logger = "0.11"
log = "0.4"
pollster = "0.3"
web-sys = { version = "0.3", features = ["Document", "Element", "HtmlCanvasElement", "Node", "Window"] }
wgpu = "23"
winit = "0.30"
