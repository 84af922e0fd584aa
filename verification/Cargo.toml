[package]
name = "fgp_fly"
version = "0.1.0"
edition = "2021"
publish = false

[dependencies]
anyhow = "1"
fgp-daemon = "*"
reqwest = { version = "*", features = ["json"] }
serde = { version = "1", features = ["derive"] }
serde_json = "1"
tokio = { version = "1", features = ["rt-multi-thread"] }
tracing = "*"
