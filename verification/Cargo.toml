[package]
name = "rust_tracer"
version = "0.1.0"
edition = "2021"
publish = false

[dependencies]
glam = "*"
image = "0.24"
rand = "0.8"
winit = "0.28"
winit_input_helper = "0.14"
pixels = "0.12"
log = "0.4"
env_logger = "*"
