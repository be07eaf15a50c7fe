[package]
name = "gopher_overlay"
version = "0.1.0"
edition = "2021"
publish = false

[dependencies]
image = { version = "0.24", default-features = false, features = ["png"] }
memmap2 = "0.9"
rand = "0.8"
tempfile = "3"
wayland-client = "0.31"
wayland-protocols = { version = "0.31", features = ["client"] }
