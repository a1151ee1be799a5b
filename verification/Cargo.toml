[package]
name = "bemu"
version = "0.1.0"
edition = "2021"
publish = false

[dependencies]
bmp = "*"
image = { version = "*", default-features = false }
piston_window = "*"
