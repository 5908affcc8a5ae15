[package]
name = "secret_store"
version = "0.1.0"
edition = "2021"
publish = false

[dependencies]
ring = "*"
serde = { version = "*", features = ["derive"] }
serde_json = "*"
