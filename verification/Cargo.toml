[package]
name = "dolos-midnight"
version = "0.1.0"
edition = "2021"
publish = false

[dependencies]
sha2 = "0.10"
hex = "0.4"
pallas-crypto = "*"
midnight-serialize = "*"
midnight-transient-crypto = "*"
midnight-coin-structure = "*"
serde = { version = "1", features = ["derive"] }
serde_json = "1"
bincode = "1"
toml = "*"
clap = { version = "4", features = ["derive"] }
tokio = { version = "1", features = ["full"] }
axum = "*"
tracing = "0.1"
tracing-subscriber = { version = "0.3", features = ["env-filter"] }
thiserror = "*"
async-trait = "0.1"
futures-util = "0.3"
futures-core = "0.3"
async-stream = "0.3"
