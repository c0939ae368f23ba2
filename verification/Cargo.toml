[package]
name = "syncrab"
version = "0.1.0"
edition = "2021"
publish = false

[dependencies]
color-eyre = "=0.6.5"
matrix-sdk = "=0.5.0"
once_cell = "=1.21.4"
serde = { version = "=1.0.229", features = ["derive"] }
serde_json = "=1.0.154"
synapse-admin-api = { version = "=0.4.0", features = ["client"] }
tokio = { version = "=1.54.1", features = ["fs", "macros", "rt-multi-thread", "time"] }
toml = "=0.5.11"
tracing = "=0.1.44"
tracing-subscriber = { version = "=0.3.23", features = ["env-filter"] }
url = { version = "=2.5.8", features = ["serde"] }
