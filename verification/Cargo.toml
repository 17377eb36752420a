[package]
name = "num256"
version = "0.1.0"
edition = "2021"
publish = false

[dependencies]
num = "*"
serde = { version = "*", features = ["derive"] }
serde_json = { version = "*", features = ["preserve_order"] }
