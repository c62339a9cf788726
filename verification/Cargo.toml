[package]
name = "omnipaxos_clock"
version = "0.1.0"
edition = "2021"
publish = false

[dependencies]
tokio = { version = "=1.54.1", features = ["rt-multi-thread", "macros", "sync", "time", "net", "io-util"] }
rand = "=0.8.8"
log = "=0.4.35"
env_logger = "=0.11.11"
serde = { version = "=1.0.229", features = ["derive"] }
serde_json = "=1.0.154"
config = { version = "=0.14.1", default-features = false, features = ["toml"] }
chrono = "=0.4.45"
futures = "=0.3.34"
