[package]
name = "lofi_party"
version = "0.1.0"
edition = "2021"
publish = false

[dependencies]
actix-cors = "*"
actix-web = "*"
anyhow = "*"
dotenv = "*"
futures-util = "*"
log = "*"
mongodb = "*"
names = "*"
serde = { version = "*", features = ["derive"] }
serde_json = "*"
thiserror = "*"
tokio = { version = "*", features = ["full"] }
tokio-tungstenite = "*"
tracing-subscriber = "*"
