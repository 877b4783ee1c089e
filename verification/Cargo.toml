[package]
name = "xivapi_rust"
version = "0.1.0"
edition = "2021"

[dependencies]
reqwest = "0.11"
serde_json = "1"
