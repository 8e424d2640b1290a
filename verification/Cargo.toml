[package]
name = "llm_sdk"
version = "0.1.0"
edition = "2021"
publish = false

[dependencies]
anyhow = "*"
reqwest = { version = "*", default-features = false, features = ["json", "multipart"] }
schemars = "*"
serde = { version = "*", features = ["derive"] }
serde_json = "*"
tracing = "*"
