[package]
name = "log_diagnostics"
version = "0.1.0"
edition = "2021"
publish = false

[dependencies]
anyhow = "1"
flate2 = "1"
poise = "0.6"
regex = "1"
reqwest = { version = "0.11", default-features = false, features = ["json", "rustls-tls"] }
serde = { version = "1", features = ["derive"] }
serde_urlencoded = "0.7"
serenity = "0.12"
tokio = { version = "1", features = ["macros", "rt-multi-thread"] }
toml = "0.8"
