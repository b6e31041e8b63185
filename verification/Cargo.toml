[package]
name = "venman"
version = "0.1.7"
edition = "2021"
publish = false

[dependencies]
toml = "0.8"
dirs = "5"
colored = "2"
serde = { version = "1", features = ["derive"] }
