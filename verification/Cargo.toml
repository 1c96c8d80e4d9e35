[package]
name = "chain_sync"
version = "0.1.0"
edition = "2021"
publish = false

[dependencies]
anyhow = "1"
hex = "0.4"
http = "1"
prost-types = "0.14"
rand = "0.9"
thiserror = "2"
tokio = { version = "1", features = ["rt", "sync", "time"] }
tonic = "0.14"
tracing = "0.1"
