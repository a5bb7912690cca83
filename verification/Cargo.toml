[package]
name = "goji"
version = "0.3.0"
edition = "2021"
publish = false

[dependencies]
log = "0.4"
reqwest = { version = "0.12", default-features = false, features = ["json"] }
serde = { version = "1", features = ["derive"] }
serde_json = "1"
url = "2"
