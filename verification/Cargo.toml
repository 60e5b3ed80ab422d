[package]
name = "deepseek_agent"
version = "0.4.0"
edition = "2021"
publish = false

[dependencies]
serde_json = "1"
serde = { version = "1", features = ["derive"] }
tokio = { version = "1", features = ["full"] }
reqwest = { version = "0.12", default-features = false, features = ["json"] }
dotenv = "0.15"
tracing = "0.1"
tracing-subscriber = "0.3"
