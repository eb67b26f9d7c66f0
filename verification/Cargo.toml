[package]
name = "render_harness"
version = "0.1.0"
edition = "2021"
publish = false

[dependencies]
gl = "0.14"
glfw = "*"
cgmath = "*"
image = { version = "*", default-features = false, features = ["jpeg"] }
