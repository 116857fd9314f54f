[package]
name = "goshenite"
version = "0.1.0"
edition = "2021"
publish = false

[dependencies]
ahash = "=0.8.12"
ash = "=0.37.3"
egui = "=0.27.2"
glam = "=0.24.2"
bytemuck = { version = "=1.25.2", features = ["derive"] }
stl_io = "0.7"
