[package]
name = "wasmiot_orchestrator"
version = "0.1.0"
edition = "2021"
publish = false

[dependencies]
actix-multipart = "0.7"
actix-web = "=4.18.1"
bson = "=2.15.0"
chrono = "=0.4.45"
futures = "=0.3.34"
log = "=0.4.34"
mongodb = "=3.9.1"
reqwest = { version = "=0.12.28", default-features = false, features = ["json", "multipart"] }
serde = { version = "=1.0.229", features = ["derive"] }
serde_json = "=1.0.154"
tokio = { version = "=1.54.1", features = ["fs", "io-util", "macros", "rt-multi-thread", "time"] }
