[package]
name = "bevy_serialization_extras"
version = "0.1.0"
edition = "2021"
publish = false

[dependencies]
urdf-rs = "*"
serde = { version = "1", features = ["derive"] }
serde_json = "1"
glam = "*"
nalgebra = "*"
thiserror = "*"
