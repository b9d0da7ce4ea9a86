[package]
name = "scry_protocol"
version = "0.1.0"
edition = "2021"
publish = false

[dependencies]
anyhow = "1"
base64 = "0.22"
flexbuffers = "*"
serde = { version = "1", features = ["derive"] }
thiserror = "1"
