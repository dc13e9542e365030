[package]
name = "dial_core"
version = "0.1.0"
edition = "2021"
publish = false

[dependencies]
anyhow = "1"
async-trait = "0.1"
candle-core = { version = "0.9", default-features = false }
candle-nn = { version = "0.9", default-features = false }
clap = { version = "4", features = ["derive"] }
human_bytes = { version = "0.4", default-features = false }
log = "0.4"
memory-stats = "1"
serde_json = "1"
tokio = { version = "1", features = ["macros", "net", "rt", "sync", "time"] }
