[package]
name = "f9"
version = "0.1.0"
edition = "2021"
publish = false

[dependencies]
uuid = { version = "=1.27.0", features = ["v4"] }
glam = "=0.29.3"
wgpu = { version = "22", default-features = false, features = ["wgsl"] }
