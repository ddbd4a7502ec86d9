[package]
name = "axon"
version = "0.1.0"
edition = "2021"
publish = false

[dependencies]
rust_decimal = "1"
sha2 = "0.10"
serde = { version = "1", features = ["derive"] }
serde_json = "1"
chrono = { version = "0.4", features = ["serde"] }
uuid = { version = "1", features = ["v4", "serde"] }
rand = "0.8"
thiserror = "1"
toml = "0.8"
csv = "1"
tracing = "0.1"
