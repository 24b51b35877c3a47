[package]
name = "consul_api_sidecar"
version = "0.1.0"
edition = "2021"
publish = false

[dependencies]
anyhow = "1"
async-trait = "0.1"
bytes = "1"
clap = { version = "4", features = ["derive"] }
futures = "0.3"
rand = "0.8"
serde = { version = "1", features = ["derive"] }
serde_json = "1"
tokio = { version = "1", features = ["rt", "net", "time", "sync", "macros", "signal", "fs", "io-util"] }
tokio-util = { version = "0.7", features = ["compat"] }
toml = "0.5"
tracing = "0.1"
tracing-subscriber = "0.3"
url = "2"
yamux = "0.11"
