[package]
name = "amms"
version = "0.1.0"
edition = "2021"
publish = false

[dependencies]
alloy = { version = "0.3", default-features = false, features = ["std", "contract", "network", "providers", "rpc-types", "rpc-types-eth", "sol-types", "transports"] }
async-trait = "0.1"
futures = { version = "0.3", default-features = false, features = ["std"] }
indicatif = { version = "0.17", default-features = false }
serde = { version = "1", features = ["derive"] }
serde_json = "1"
tokio = { version = "1", features = ["rt", "sync", "time"] }
tokio-retry = "0.3"
tracing = "0.1"
