[package]
name = "lme_agent"
version = "0.1.0"
edition = "2021"
publish = false

[dependencies]
uuid = { version = "=1.29.0", features = ["v4"] }
serde = { version = "=1.0.229", features = ["derive"] }
anyhow = "=1.0.104"
tokio = { version = "=1.54.1", features = ["macros", "rt-multi-thread", "io-std"] }
rmcp = { version = "=2.2.0", features = ["transport-io"] }
