[package]
name = "copytrader"
version = "0.1.0"
edition = "2021"
publish = false

[dependencies]
bs58 = "*"
serde = { version = "*", features = ["derive"] }
serde_json = "*"
anyhow = "*"
tokio = { version = "*", features = ["macros", "rt-multi-thread", "time", "sync"] }
tokio-tungstenite = "*"
futures-util = "*"
dotenv = "*"
