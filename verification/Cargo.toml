[package]
name = "libp2p_node"
version = "0.1.0"
edition = "2021"
publish = false

[dependencies]
bs58 = "0.5"
futures = "0.3"
libp2p = { version = "0.53", features = ["tokio", "gossipsub", "mdns", "noise", "macros", "tcp", "yamux", "quic"] }
pyo3 = { version = "0.20", features = ["extension-module"] }
tokio = { version = "1", features = ["full"] }
tracing-subscriber = { version = "0.3", features = ["env-filter"] }
