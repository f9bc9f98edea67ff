[package]
name = "server_supervisor"
version = "0.1.0"
edition = "2021"
publish = false

[dependencies]
dirs = "*"
log = "0.4"
reqwest = { version = "0.12", default-features = false }
tokio = { version = "1", features = ["time"] }
