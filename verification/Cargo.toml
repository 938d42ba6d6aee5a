[package]
name = "convolve2d"
version = "0.3.0"
edition = "2021"
publish = false

[dependencies]
rayon = "1"
image = { version = "0.25", default-features = false, features = ["png", "jpeg"] }
