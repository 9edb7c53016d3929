[package]
name = "freedom_models"
version = "0.1.0"
edition = "2021"
publish = false

[dependencies]
time = { version = "0.3", features = ["parsing", "formatting"] }
url = "2"
serde = { version = "1", features = ["derive"] }
serde_json = "1"
