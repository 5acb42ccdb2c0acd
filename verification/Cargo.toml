[package]
name = "snake_core"
version = "0.1.0"
edition = "2021"
publish = false

[dependencies]
amethyst = { version = "=0.15.3", default-features = false, features = ["renderer", "vulkan"] }
log = "=0.4.34"
nalgebra-glm = "=0.21.0"
rand = "=0.7.3"
