[package]
name = "rusty_vault"
version = "0.1.0"
edition = "2021"
publish = false

[dependencies]
axum = "0.8"
dirs = "*"
latch = "*"
log = "0.4"
once_cell = "1"
open = "5"
reqwest = { version = "0.12", default-features = false, features = ["rustls-tls"] }
secrecy = "0.10"
serde = { version = "1", features = ["derive"] }
serde_json = "1"
thiserror = "2"
tokio = { version = "1", features = ["full"] }
