[package]
name = "node_manager"
version = "0.1.0"
edition = "2021"
publish = false

[dependencies]
anyhow = "=1.0.104"
clap = { version = "=4.6.7", features = ["derive"] }
colorful = "=0.2.2"
minicbor = { version = "=0.18.0", features = ["derive", "alloc"] }
ockam = "=0.34.0"
ockam_core = "=0.35.0"
ockam_multiaddr = "=0.10.0"
open = "=3.2.0"
reqwest = { version = "=0.11.27", default-features = false, features = ["json", "rustls-tls"] }
serde = { version = "=1.0.229", features = ["derive"] }
serde_json = "=1.0.154"
tokio = { version = "=1.54.1", features = ["full"] }
tokio-retry = "=0.3.2"
tracing = "=0.1.44"
