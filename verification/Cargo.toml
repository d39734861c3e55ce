[package]
name = "abyss"
version = "0.1.0"
edition = "2021"
publish = false

[dependencies]
bincode = "=1.3.3"
glam = { version = "=0.34.2", features = ["serde"] }
noise = "=0.9.0"
serde = { version = "=1.0.229", features = ["derive"] }
