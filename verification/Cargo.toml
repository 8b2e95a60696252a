[package]
name = "scene_compositor"
version = "0.1.0"
edition = "2021"
publish = false

[dependencies]
glam = "=0.27.0"
glamour = "=0.11.1"
palette = { version = "=0.7.7", default-features = false, features = ["std"] }
bytemuck = { version = "=1.16.3", features = ["derive"] }
profiling = { version = "=1.0.18", default-features = false }
rust-embed = "=8.4.0"
