[package]
name = "alula"
version = "0.1.0"
edition = "2021"
publish = false

[dependencies]
thiserror = "1"
wgpu = { version = "0.19", default-features = false }
