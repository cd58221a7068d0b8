[package]
name = "vulkan_test"
version = "0.1.0"
edition = "2021"
publish = false

[dependencies]
nalgebra-glm = "=0.7.0"
bytemuck = "=1.25.2"
vulkano = "=0.21.0"
vulkano-win = "=0.21.0"
winit = "=0.24.0"
