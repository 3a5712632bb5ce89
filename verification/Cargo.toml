[package]
name = "glamour"
version = "0.1.0"
edition = "2021"
publish = false

[dependencies]
nalgebra-glm = "=0.21.0"
bytemuck = "=1.25.2"
rayon = "=1.12.0"
gl = "=0.14.0"
image = "=0.25.10"
serde = { version = "=1.0.229", features = ["derive"] }
serde_json = "=1.0.151"
csv = "=1.4.0"
rand = "=0.9.5"
rand_chacha = "=0.9.0"
bracket-noise = "=0.8.7"
