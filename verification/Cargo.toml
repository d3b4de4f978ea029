[package]
name = "thinwire_core"
version = "0.1.0"
edition = "2021"
publish = false

[dependencies]
chrono = "0.4"
keyring-core = "*"
linux-keyutils-keyring-store = "*"
secret-service = { version = "*", features = ["rt-tokio-crypto-rust"] }
zbus-secret-service-keyring-store = { version = "*", features = ["crypto-rust"] }
zbus = "5"
notify-rust = "4"
dirs = "6"
tracing = "0.1"
tokio = { version = "1", features = ["rt-multi-thread", "sync", "time", "macros"] }
