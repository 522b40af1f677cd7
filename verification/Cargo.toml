[package]
name = "monotonic_guard"
version = "0.1.0"
edition = "2021"
publish = false

[dependencies]
async-trait = "0.1"
drasi-core = "*"
serde = { version = "1", features = ["derive"] }
serde_json = "1"
