[package]
name = "ghostpages"
version = "0.1.0"
edition = "2021"
publish = false

[dependencies]
blake3 = "1"
hex = "0.4"
zstd = "0.13"
tokio = { version = "1", features = ["sync", "macros", "rt"] }
serde = { version = "1", features = ["derive"] }
serde_json = "1"
thiserror = "1"
anyhow = "1"
clap = { version = "4", features = ["derive"] }
tracing = "0.1"
tracing-subscriber = "0.3"
chrono = "0.4"
parking_lot = "0.12"
