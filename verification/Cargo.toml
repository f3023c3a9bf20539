[package]
name = "creative_camera"
version = "0.1.0"
edition = "2021"
publish = false

[dependencies]
spacetimedb = "=2.9.0"
