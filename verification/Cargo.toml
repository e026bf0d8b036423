[package]
name = "sgma"
version = "0.1.0"
edition = "2021"
publish = false

[dependencies]
serde = { version = "1", features = ["derive"] }
tar = "0.4"
toml = "*"
zstd_util = "*"
