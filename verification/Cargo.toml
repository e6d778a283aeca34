[package]
name = "vulkmini"
version = "0.1.0"
edition = "2021"
publish = false

[dependencies]
bytemuck = { version = "1", features = ["derive"] }
image = "0.24"
nalgebra-glm = "0.18"
vulkano = "0.32"
vulkano-shaders = "0.32"
vulkano-win = "0.32"
winit = "0.27"
