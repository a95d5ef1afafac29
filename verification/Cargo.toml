[package]
name = "akai"
version = "0.1.0"
edition = "2021"
publish = false

[dependencies]
ash = { version = "0.38", features = ["linked"] }
ash-window = "0.13"
winit = "0.29"
