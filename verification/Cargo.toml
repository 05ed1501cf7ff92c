[package]
name = "zeroclaw"
version = "0.1.0"
edition = "2021"
publish = false

[dependencies]
serde = { version = "=1.0.229", features = ["derive"] }
serde_json = "=1.0.154"
anyhow = "=1.0.104"
async-trait = "=0.1.92"
chrono = "=0.4.45"
parking_lot = "=0.13.0"
tracing = "=0.1.44"
log = "=0.4.35"
env_logger = "=0.11.11"
spacetimedb = { version = "=2.0.5", features = ["unstable"] }
