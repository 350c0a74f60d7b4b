[package]
name = "minetest_gltf"
version = "0.1.0"
edition = "2021"
publish = false

[dependencies]
ahash = "=0.8.12"
bytemuck = "*"
glam = { version = "=0.34.0", features = ["bytemuck"] }
gltf = "=1.4.1"
log = "=0.4.34"
