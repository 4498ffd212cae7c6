[package]
name = "nextctl"
version = "0.1.0"
edition = "2021"
publish = false

[dependencies]
wayland-client = "0.29"
wayland-commons = "0.29"
