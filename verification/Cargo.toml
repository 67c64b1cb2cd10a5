[package]
name = "token_service"
version = "0.1.0"
edition = "2021"
publish = false

[dependencies]
mpl-token-metadata = "=4.1.2"
reqwest = { version = "=0.11.27", default-features = false, features = ["json", "rustls-tls"] }
serde = { version = "1", features = ["derive"] }
serde_json = "=1.0.154"
serde_yaml = "0.9"
solana-sdk = "=1.18.26"
spl-token = "=4.0.0"
tokio = { version = "1", features = ["macros", "rt-multi-thread"] }
tokio-postgres = { version = "=0.7.18", features = ["with-serde_json-1"] }
