[package]
name = "tye_home"
version = "0.1.0"
edition = "2021"
publish = false

[dependencies]
circular-queue = "*"
log = "*"
serde = { version = "*", features = ["derive"] }
serde_json = "*"
