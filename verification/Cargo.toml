[package]
name = "adsabs"
version = "0.1.0"
edition = "2021"
publish = false

[dependencies]
serde_json = "1"
serde = { version = "1", features = ["derive"] }
reqwest = { version = "0.12", default-features = false, features = ["blocking", "json"] }
clap = { version = "4", features = ["derive"] }
dirs = "*"
chrono = { version = "0.4", features = ["serde"] }
anyhow = "1"
toml = "*"
