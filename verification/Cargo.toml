[package]
name = "wasi_gpio"
version = "0.1.0"
edition = "2021"
publish = false

[dependencies]
rppal = "*"
clap = { version = "*", features = ["derive"] }
serde = { version = "*", features = ["derive"] }
toml = "*"
anyhow = "*"
