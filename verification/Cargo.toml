[package]
name = "gsi"
version = "0.1.0"
edition = "2021"
publish = false

[dependencies]
csv = "*"
toml = "*"
chrono = "*"
clap = { version = "*", features = ["derive"] }
