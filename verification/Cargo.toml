[package]
name = "atomcad"
version = "0.1.0"
edition = "2021"
publish = false

[dependencies]
winit = { version = "0.29", default-features = false, features = ["x11"] }
web-sys = { version = "0.3", features = ["Window"] }
