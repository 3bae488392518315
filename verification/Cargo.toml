[package]
name = "camera_driver"
version = "0.1.0"
edition = "2021"
publish = false

[dependencies]
rppal = "*"
tiny_http = "*"
serde = { version = "*", features = ["derive"] }
config-file = "*"
