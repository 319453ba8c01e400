[package]
name = "voxel_explore"
version = "0.1.0"
edition = "2021"
publish = false

[dependencies]
ash = "0.38"
glam = "*"
glfw = { version = "*", features = ["vulkan"] }
bytemuck = "1"
