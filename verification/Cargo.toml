[package]
name = "scene_pipeline"
version = "0.1.0"
edition = "2021"
publish = false

[dependencies]
iced_graphics = "=0.12.1"
iced_native = "=0.10.3"
raw-window-handle = "=0.6.2"
wgpu = "0.19"
