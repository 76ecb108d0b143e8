[package]
name = "mywebnote"
version = "0.1.0"
edition = "2021"
publish = false

[dependencies]
moka = { version = "0.12", features = ["sync"] }
serde_json = "1"
regex = "1"
globset = "0.4"
redis = { version = "*", features = ["cluster", "cluster-async", "tokio-comp"] }
chrono = "0.4"
serde = { version = "1", features = ["derive"] }
config = "*"
clap = "4"
tokio = { version = "1", features = ["full"] }
axum = "0.7"
