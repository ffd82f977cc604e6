[package]
name = "anvil_store"
version = "0.1.0"
edition = "2021"
publish = false

[dependencies]
flate2 = "=1.1.10"
rand = "=0.8.8"
valence_nbt = { version = "=0.8.0", features = ["binary"] }
tokio = { version = "=1.53.2", features = ["fs", "io-util", "macros", "rt-multi-thread", "sync", "time"] }
serde = { version = "=1.0.229", features = ["derive"] }
