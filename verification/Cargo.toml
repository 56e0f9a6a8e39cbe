[package]
name = "spectral_cache"
version = "0.1.0"
edition = "2021"
publish = false

[dependencies]
spectrum-analyzer = "*"
serde = { version = "*", features = ["derive"] }
