[package]
name = "wasmcloud_provider"
version = "0.1.0"
edition = "2021"
publish = false

[dependencies]
anyhow = "1"
async-nats = "0.33"
async-trait = "0.1"
base64 = "0.13"
crossbeam = "0.8"
log = "0.4"
nats = "0.26"
nkeys = "0.4"
serde = { version = "1", features = ["derive"] }
serde_bytes = "0.11"
serde_json = "1"
tokio = { version = "1", features = ["full"] }
tracing = "0.1"
wrpc-transport = "0.17"
wrpc-types = "0.3"
