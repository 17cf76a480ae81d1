[package]
name = "kafka_delta_ingest_wasm"
version = "0.1.0"
edition = "2021"
publish = false

[dependencies]
wasmtime = "=47.0.4"
serde_json = "=1.0.151"
chrono = "=0.4.45"
