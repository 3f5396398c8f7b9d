[package]
name = "rem"
version = "0.1.0"
edition = "2021"
publish = false

[dependencies]
dirs = "*"
image = { version = "0.25", default-features = false, features = ["png", "ico", "bmp", "gif", "tga", "pnm", "qoi"] }
serde = { version = "1", features = ["derive"] }
serde_json = "1"
skia-safe = { version = "*", features = ["vulkan"] }
vulkano = "0.35"
winit = "0.30"
