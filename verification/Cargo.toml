[package]
name = "tile_render"
version = "0.1.0"
edition = "2021"
publish = false

[dependencies]
bytemuck = { version = "1", features = ["derive"] }
glfw = "*"
tokio = { version = "1", features = ["macros", "rt-multi-thread"] }
wgpu = { version = "24", default-features = false, features = ["wgsl"] }
