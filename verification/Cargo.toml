[package]
name = "chip8"
version = "0.1.0"
edition = "2021"
publish = false

[dependencies]
rand = "0.8"
log = "0.4"
env_logger = "0.10"
error-iter = "0.4"
pixels = "*"
winit = "0.29"
winit_input_helper = "0.16"
