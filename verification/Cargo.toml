[package]
name = "databend_meta"
version = "0.1.0"
edition = "2021"
publish = false

[dependencies]
serde = { version = "1", features = ["derive"] }
prost = "0.11"
arrow-format = { version = "0.8", default-features = false, features = ["flight-data"] }
tonic = "0.8"
futures = "0.3"
tokio-stream = "0.1"
tokio = { version = "1", features = ["sync"] }
async-trait = "0.1"
tracing = "0.1"
