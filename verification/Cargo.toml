[package]
name = "commit2_worker"
version = "0.1.0"
edition = "2021"
publish = false

[dependencies]
anyhow = "=1.0.104"
async-trait = "=0.1.92"
axum = "=0.6.20"
axum-client-ip = "=0.4.2"
backoff = "0.4"
base64 = "=0.21.7"
blake2b_simd = "=1.0.5"
chrono = "=0.4.45"
ciborium = "=0.2.2"
clap = { version = "=4.6.7", features = ["derive", "env"] }
colorful = "=0.2.2"
fil_logger = "=0.1.7"
futures = "=0.3.34"
fvm_shared = "=3.14.2"
home = "=0.5.12"
humansize = "1"
jsonrpc-v2 = { version = "0.13", default-features = false }
libp2p = { version = "=0.52.4", default-features = false }
log = "=0.4.35"
once_cell = "=1.21.4"
parse-size = "=1.1.0"
reqwest = { version = "=0.11.27", default-features = false, features = ["blocking", "json", "rustls-tls"] }
serde = { version = "=1.0.229", features = ["derive"] }
serde_json = "=1.0.154"
thiserror = "=1.0.69"
tokio = { version = "=1.54.1", features = ["rt-multi-thread", "macros", "sync", "time"] }
uuid = { version = "=1.29.1", features = ["v4", "serde"] }
