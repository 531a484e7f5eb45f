[package]
name = "glow_repro"
version = "0.1.0"
edition = "2021"
publish = false

[dependencies]
glfw = { version = "=0.51.0", default-features = false }
glm = "=0.2.3"
glow = "=0.12.3"
