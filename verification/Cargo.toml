[package]
name = "bdrpc"
version = "0.2.0"
edition = "2021"
publish = false

[dependencies]
async-trait = "0.1"
serde = { version = "1", features = ["derive"] }
serde_json = "1"
tokio = { version = "1", features = ["sync", "rt", "rt-multi-thread", "macros", "time", "net", "io-util"] }
tracing = "0.1"
uuid = { version = "1", features = ["v4"] }
