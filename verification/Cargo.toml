[package]
name = "reticle"
version = "0.1.0"
edition = "2021"
publish = false

[dependencies]
vast = "*"
serde = { version = "*", features = ["derive"] }
serde_json = "*"
pretty = "*"
thiserror = "*"
