[package]
name = "profilebot"
version = "0.1.0"
edition = "2021"
publish = false

[dependencies]
serde_json = "1"
reqwest = { version = "=0.12.28", features = ["blocking", "json"] }
tide = "=0.16.0"
async-std = { version = "1", features = ["attributes"] }
tempdir = "0.3"
