[package]
name = "camera_capture"
version = "0.1.0"
edition = "2021"
publish = false

[dependencies]
image = { version = "0.23", default-features = false, features = ["bmp"] }
minifb = "0.19"
async-std = { version = "1", features = ["attributes"] }
winrt = "0.7"
