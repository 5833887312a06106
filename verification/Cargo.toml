[package]
name = "lustre"
version = "0.1.0"
edition = "2021"
publish = false

[dependencies]
bytemuck = "1"
rand = "=0.9.5"
nalgebra = "=0.33.3"
serde = { version = "=1.0.229", features = ["derive"] }
vulkano = "=0.35.2"
winit = "=0.30.13"
