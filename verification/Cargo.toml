[package]
name = "pwitter"
version = "0.1.0"
edition = "2021"
publish = false

[dependencies]
async-std = "1"
iced = { version = "0.7", features = ["image"] }
serde = { version = "1", features = ["derive"] }
serde_json = "1"
