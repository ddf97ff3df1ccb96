[package]
name = "vulkan_frame"
version = "0.1.0"
edition = "2021"
publish = false

[dependencies]
ash = "0.33"
ash-window = "0.7"
log = "0.4"
memoffset = "0.6"
winit = "0.25"
