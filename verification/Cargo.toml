[package]
name = "rspawn"
version = "0.1.0"
edition = "2021"
publish = false

[dependencies]
anyhow = "1"
log = "0.4"
reqwest = { version = "0.12", features = ["blocking"] }
serde_json = "1"
uuid = { version = "1", features = ["v4"] }
