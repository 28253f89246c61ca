[package]
name = "reth_custom_db"
version = "0.1.0"
edition = "2021"
publish = false

[dependencies]
bytes = "1"
clap = { version = "4", features = ["derive"] }
eyre = "0.6"
futures-util = "0.3"
jsonrpsee = { version = "0.25", features = ["server"] }
rusqlite = "0.32"
serde = { version = "1", features = ["derive"] }
serde_json = { version = "1", features = ["raw_value"] }
tokio = { version = "1", features = ["sync", "rt", "macros"] }
