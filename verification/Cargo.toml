[package]
name = "qbit_rs"
version = "0.1.0"
edition = "2021"
publish = false

[dependencies]
reqwest = { version = "=0.12.28", default-features = false, features = ["json"] }
url = { version = "=2.5.8", features = ["serde"] }
serde = { version = "=1.0.229", features = ["derive"] }
serde_json = "=1.0.154"
serde_repr = "=0.1.21"
serde_with = "=3.24.0"
serde-value = "=0.7.0"
thiserror = "=1.0.69"
tracing = "=0.1.44"
tap = "=1.0.1"
