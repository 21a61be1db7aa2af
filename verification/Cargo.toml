[package]
name = "kvm_compose"
version = "0.1.0"
edition = "2021"
publish = false

[dependencies]
rand = "0.9"
chrono = "0.4"
serde = { version = "1", features = ["derive"] }
serde_json = "1"
anyhow = "1"
tokio = { version = "1", features = ["process", "net", "io-util", "rt", "rt-multi-thread", "macros", "sync", "time"] }
tracing = "0.1"
