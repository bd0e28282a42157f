[package]
name = "blitzi"
version = "0.1.0"
edition = "2021"
publish = false

[dependencies]
anyhow = "1"
axum = "*"
bitcoin_hashes = "*"
clap = { version = "4", features = ["derive", "env"] }
futures-lite = "2"
lightning-invoice = "*"
rand = "0.8"
serde = { version = "1", features = ["derive"] }
tokio = { version = "1", features = ["full"] }
tracing = "0.1"
tracing-subscriber = { version = "0.3", features = ["env-filter"] }
xdg = "*"
