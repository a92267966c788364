[package]
name = "example-server"
version = "0.1.0"
edition = "2021"
publish = false

[dependencies]
fastly = "0.13"
serde_json = "1"
