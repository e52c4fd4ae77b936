[package]
name = "rs_cpurenderer"
version = "0.1.0"
edition = "2021"

[dependencies]
image = { version = "0.24", default-features = false, features = ["png", "jpeg"] }
