[package]
name = "batchkit"
version = "0.1.0"
edition = "2021"
publish = false

[dependencies]
crevice = "=0.20.1"
glam = { version = "=0.34.1", features = ["mint-05"] }
image = { version = "=0.25.10", default-features = false, features = ["png", "jpeg"] }
mint = "=0.5.9"
pollster = "=1.0.1"
raw-window-handle = "=0.6.2"
thiserror = "=2.0.21"
typed-arena = "=2.0.2"
wgpu = "=28.0.0"
wgpu_glyph = "=0.28.0"
