[package]
name = "rusticvision"
version = "0.1.0"
edition = "2021"
publish = false

[dependencies]
bytemuck = { version = "1", features = ["derive"] }
futures-intrusive = "0.5"
glam = "0.24"
image = { version = "0.24", default-features = false, features = ["png"] }
itertools = "0.11"
nom = "7"
pollster = "0.3"
rand = "0.8"
rayon = "1"
wgpu = "0.17"
