[package]
name = "isocube"
version = "0.1.0"
edition = "2021"
publish = false

[dependencies]
gl = "*"
glfw = "*"
nalgebra-glm = "*"

[dependencies.image]
version = "*"
default-features = false
features = ["png"]
