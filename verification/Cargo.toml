[package]
name = "gitclaw"
version = "0.1.0"
edition = "2021"
publish = false

[dependencies]
serde = { version = "1", features = ["derive"] }
serde_json = "1"
serde_yaml = "0.9"
regex = "1"
jsonschema = { version = "*", default-features = false }
thiserror = "1"
tokio = { version = "1", features = ["full"] }
tokio-util = "0.7"
async-trait = "0.1"
futures = "0.3"
once_cell = "1"
uuid = { version = "1", features = ["v4"] }
clap = { version = "4", features = ["derive"] }
rustyline = "*"
reqwest = { version = "0.12", default-features = false, features = ["json"] }
axum = { version = "0.7", default-features = false, features = ["tokio", "http1", "json"] }
http = "1"
tokio-tungstenite = { version = "0.21", default-features = false, features = ["connect", "handshake"] }
