[package]
name = "prompt_relay"
version = "0.1.0"
edition = "2021"
publish = false

[dependencies]
serde_json = "=1.0.151"
axum = "=0.8.9"
tokio = { version = "=1.53.2", features = ["macros", "net", "rt-multi-thread"] }
tower-http = { version = "=0.7.1", features = ["cors"] }
reqwest = { version = "=0.13.5", default-features = false }
