[package]
name = "pixel_audio"
version = "0.1.0"
edition = "2021"
publish = false

[dependencies]
image = { version = "0.25", default-features = false, features = ["png"] }
rayon = "1"
rodio = { version = "0.19", default-features = false }
