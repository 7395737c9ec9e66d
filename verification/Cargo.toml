[package]
name = "plumber"
version = "0.1.0"
edition = "2021"
publish = false

[dependencies]
crossbeam-channel = "0.5"
glam = "*"
rgb = "0.8"
tracing = "0.1"
