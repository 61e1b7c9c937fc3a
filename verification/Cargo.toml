[package]
name = "beryl_metadata"
version = "0.1.0"
edition = "2021"
publish = false

[dependencies]
async-trait = "0.1"
parking_lot = "0.12"
serde = { version = "1", features = ["derive"] }
tokio = { version = "1", features = ["time"] }
tracing = "0.1"
