[package]
name = "alliumd"
version = "0.1.0"
edition = "2021"
publish = false

[dependencies]
anyhow = "=1.0.104"
chrono = "=0.4.45"
futures = "=0.3.34"
nix = { version = "=0.31.3", features = ["signal"] }
serde_json = "=1.0.151"
tokio = { version = "=1.53.2", features = ["macros", "process", "rt", "signal", "sync", "time"] }
