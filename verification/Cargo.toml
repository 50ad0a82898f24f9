[package]
name = "gpu_var"
version = "0.1.0"
edition = "2021"
publish = false

[dependencies]
metal = "*"
