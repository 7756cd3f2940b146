[package]
name = "rcli"
version = "0.1.0"
edition = "2021"
publish = false

[dependencies]
anyhow = "1"
axum = "0.8"
base64 = "0.22"
blake3 = { version = "1", features = ["pure"] }
clap = { version = "4", features = ["derive"] }
colored = "2"
csv = "1"
ed25519-dalek = "2"
enum_dispatch = "0.3"
rand = "0.8"
serde_json = "1"
serde_yaml = "0.9"
tokio = { version = "1", features = ["rt", "rt-multi-thread", "macros", "net", "fs"] }
tower-http = { version = "0.6", features = ["fs", "compression-br", "compression-deflate", "compression-gzip", "compression-zstd"] }
tracing = "0.1"
zxcvbn = "3"
