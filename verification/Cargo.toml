[package]
name = "pathtrace"
version = "0.1.0"
edition = "2021"
publish = false

[dependencies]
vulkano = "*"
winit = { version = "0.29", default-features = false, features = ["rwh_06", "x11"] }
