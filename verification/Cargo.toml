[package]
name = "phalanx"
version = "0.1.0"
edition = "2021"
publish = false

[dependencies]
anyhow = "1"
half = "2"
memmap2 = "0.9"
serde = { version = "1", features = ["derive"] }
serde_json = "1"
thiserror = "2"
tracing = "0.1"
tracing-subscriber = { version = "0.3", features = ["env-filter", "fmt"] }
