[package]
name = "silver_telegram"
version = "0.1.0"
edition = "2021"
publish = false

[dependencies]
chrono = "0.4"
ulid = "1"
petgraph = "*"
serde = { version = "1", features = ["derive"] }
serde_json = "1"
async-trait = "*"
tokio = { version = "1", features = ["rt", "macros", "sync", "time", "io-util"] }
tokio-stream = "*"
futures = "*"
async-nats = "*"
spicedb-client = "*"
spicedb-grpc = "*"
rootcause = "*"
tracing = "*"
