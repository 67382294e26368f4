[package]
name = "temi"
version = "0.1.0"
edition = "2021"
publish = false

[dependencies]
clap = "2"
reqwest = { version = "0.11", features = ["blocking", "json"] }
rust_decimal = "1"
serde = { version = "1", features = ["derive"] }
url = "2"

[dev-dependencies]
serde_json = "1"
