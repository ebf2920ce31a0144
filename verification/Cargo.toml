[package]
name = "cup"
version = "0.1.0"
edition = "2021"
publish = false

[dependencies]
anyhow = "1"
clap = { version = "4", features = ["derive"] }
merkle_hash = "*"
serde = { version = "1", features = ["derive"] }
toml = "0.8"
