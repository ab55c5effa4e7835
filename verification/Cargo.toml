[package]
name = "viewer_input"
version = "0.1.0"
edition = "2021"
publish = false

[dependencies]
cgmath = "0.18"
winit = "0.28"
