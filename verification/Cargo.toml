[package]
name = "walletbase"
version = "0.1.0"
edition = "2021"
publish = false

[dependencies]
anyhow = "1"
axum = "0.6"
base64ct = { version = "1", features = ["alloc"] }
ciborium = "0.2"
coset = "0.3"
ed25519-dalek = "2"
futures = "0.3"
hmac = "0.12"
log = "0.4"
rand_core = { version = "0.6", features = ["getrandom"] }
scylla = "*"
serde = { version = "1", features = ["derive"] }
sha3 = "0.10"
structured-logger = "1"
subtle = "2"
tokio = { version = "1", features = ["full"] }
tower = "0.4"
tower-http = { version = "0.4", features = ["catch-panic", "compression-gzip"] }
validator = { version = "0.16", features = ["derive"] }
xid = "1"
