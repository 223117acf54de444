[package]
name = "instagram_cli"
version = "0.1.0"
edition = "2021"
publish = false

[dependencies]
clap = "2"
reqwest = { version = "0.12", default-features = false, features = ["json", "rustls-tls"] }
serde = { version = "1", features = ["derive"] }
serde_json = "1"
tokio = { version = "1", features = ["rt-multi-thread", "macros"] }
