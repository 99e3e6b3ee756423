[package]
name = "trin-beacon"
version = "0.1.0"
edition = "2021"
publish = false

[dependencies]
discv5 = { version = "=0.3.1", features = ["serde"] }
ethportal-api = { version = "=0.2.2", default-features = false }
serde_json = "=1.0.154"
tokio = { version = "=1.54.1", features = ["rt", "sync", "macros"] }
tracing = "=0.1.44"
