[package]
name = "server_persistence"
version = "0.1.0"
edition = "2021"
publish = false

[dependencies]
anyhow = "1"
async-std = "1"
redis = { version = "0.23", features = ["async-std-comp", "connection-manager"] }
url = "2"
uuid = "1"
