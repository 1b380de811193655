[package]
name = "polymarket_copy_bot"
version = "0.1.0"
edition = "2021"
publish = false

[dependencies]
anyhow = "*"
async-channel = "*"
chrono = "*"
dotenv = "*"
futures-util = "*"
reqwest = { version = "*", default-features = false, features = ["json"] }
serde = { version = "*", features = ["derive"] }
serde_json = "*"
tokio = { version = "*", features = ["rt-multi-thread", "macros", "time", "sync"] }
tokio-tungstenite = "*"
tracing = "*"
tracing-subscriber = { version = "*", features = ["env-filter"] }
