[package]
name = "nixpacks"
version = "0.0.1"
edition = "2021"
publish = false

[dependencies]
anyhow = "1"
clap = "3"
serde = { version = "1", features = ["derive"] }
serde_json = "1"
tempdir = "0.3"
uuid = { version = "1", features = ["v4"] }
