[package]
name = "vane"
version = "0.6.7"
edition = "2021"
publish = false

[dependencies]
anyhow = "1"
arc-swap = "1"
async-trait = "0.1"
bytes = "1"
dashmap = "6"
http-body-util = "0.1"
hyper = { version = "1", features = ["full"] }
once_cell = "1"
serde = { version = "1", features = ["derive"] }
serde_json = "1"
thiserror = "2"
tokio = { version = "1", features = ["full"] }
