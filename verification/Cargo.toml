[package]
name = "cloudflare-ddns"
version = "0.1.0"
edition = "2021"
publish = false

[dependencies]
anyhow = "1"
cloudflare = "*"
reqwest = "*"
serde = { version = "1", features = ["derive"] }
tokio = { version = "1", features = ["macros", "rt-multi-thread", "signal", "time"] }
toml = "*"
tracing = "0.1"
tracing-panic = "*"
tracing-subscriber = "0.3"
