[package]
name = "explorer_server"
version = "0.1.0"
edition = "2021"
publish = false

[dependencies]
qrcode-generator = "4.1.9"
tokio = { version = "1", features = ["sync", "rt", "rt-multi-thread", "macros", "time"] }
tonic = "0.12"
axum = "0.7"
askama = "0.12"
async-trait = "0.1"
anyhow = "1"
eyre = "0.6"
futures = "0.3"
chrono = "0.4"
ctrlc = "3"
rand = "0.8"
serde = { version = "1", features = ["derive"] }
serde_json = "1"
