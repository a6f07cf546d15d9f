[package]
name = "randomness_beacon"
version = "0.1.0"
edition = "2021"
publish = false

[dependencies]
chrono = { version = "=0.4.45", default-features = false, features = ["clock", "std"] }
ethers-core = "=2.0.14"
ethers-signers = "=2.0.14"
rand = "=0.8.8"
sha3 = "=0.10.9"
axum = "=0.7.9"
dotenvy = "=0.15.7"
serde = { version = "=1.0.229", features = ["derive"] }
serde_json = "=1.0.154"
tokio = { version = "=1.54.1", features = ["macros", "net", "rt-multi-thread"] }

[dev-dependencies]
hex = "=0.4.3"
num-bigint = "=0.4.8"
