[package]
name = "picup"
version = "0.1.0"
edition = "2021"
publish = false

[dependencies]
urlencoding = "*"
serde = { version = "*", features = ["derive"] }
serde_json = "*"
axum = { version = "*", features = ["multipart"] }
tokio = { version = "*", features = ["full"] }
tokio-util = { version = "*", features = ["io"] }
toml = "*"
tower-http = { version = "*", features = ["cors", "timeout"] }
reqwest = { version = "*", default-features = false, features = ["blocking", "multipart"] }
clap = "*"
uuid = { version = "*", features = ["v4"] }
