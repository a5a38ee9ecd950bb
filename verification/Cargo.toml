[package]
name = "imgui_wrapper"
version = "0.1.0"
edition = "2021"
publish = false

[dependencies]
ggez = "=0.5.1"
gfx_core = "=0.9.2"
gfx_device_gl = "=0.16.2"
imgui = "=0.4.0"
imgui-gfx-renderer = "=0.4.0"

[dev-dependencies]
winit = "=0.19.5"
