[package]
name = "mesh_auth"
version = "0.1.0"
edition = "2021"
publish = false

[dependencies]
anyhow = "*"
hex = "*"
rocket = "*"
serde = { version = "*", features = ["derive"] }
tracing = "*"
urlencoding = "*"
x509-parser = "*"
