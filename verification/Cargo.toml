[package]
name = "vk_triangle"
version = "0.1.0"
edition = "2021"
publish = false

[dependencies]
ash = "0.38"
glam = "0.24"
image = { version = "0.25", default-features = false, features = ["png"] }
spirv-std = "0.9"
