[package]
name = "varre_engine"
version = "0.1.0"
edition = "2021"
publish = false

[dependencies]
ash = { version = "0.38", default-features = false, features = ["std", "loaded", "debug"] }
ash-window = "0.13"
raw-window-handle = "0.6"
glam = "*"
winit = "0.30"
