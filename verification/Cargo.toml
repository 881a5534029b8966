[package]
name = "deepseek"
version = "0.1.0"
edition = "2021"
publish = false

[dependencies]
kovi = "0.11"
rand = "=0.8.8"
reqwest = { version = "=0.13.5", features = ["json"] }
serde = { version = "=1.0.229", features = ["derive"] }
serde_json = "=1.0.154"
