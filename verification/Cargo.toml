[package]
name = "picobot"
version = "0.1.0"
edition = "2021"
publish = false

[dependencies]
rand = "=0.10.3"
markdown = "=1.0.0"
anyhow = "=1.0.104"
mime = "=0.3.17"
serde = { version = "=1.0.229", features = ["derive"] }
toml = "=1.1.7"
tokio = { version = "=1.53.2", features = ["macros", "rt-multi-thread", "sync"] }
reqwest = { version = "=0.13.5", default-features = false, features = ["json", "rustls"] }
matrix-sdk = { version = "=0.16.1", default-features = false, features = ["rustls-tls"] }
