[package]
name = "ash_tutorial"
version = "0.1.0"
edition = "2021"
publish = false

[dependencies]
anyhow = "1"
ash = "0.38"
winit = "0.30"
