[package]
name = "dlss_sdk"
version = "0.1.0"
edition = "2021"
publish = false

[dependencies]
ash = "=0.38.0"
uuid = "=1.27.0"
wgpu = "=30.0.1"
