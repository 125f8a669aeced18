[package]
name = "color_image"
version = "0.1.0"
edition = "2021"
publish = false

[dependencies]
visioncortex = "=0.8.10"
serde = { version = "=1.0.229", features = ["derive"] }
serde_json = "=1.0.151"
