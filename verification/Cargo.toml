[package]
name = "telegram_drive"
version = "0.1.0"
edition = "2021"
publish = false

[dependencies]
base64 = "=0.23.1"
chrono = "*"
serde = { version = "*", features = ["derive"] }
serde_json = "*"
tokio = { version = "*", features = ["rt-multi-thread", "macros", "sync", "time"] }
grammers-client = "=0.8.1"
grammers-session = "=0.8.0"
grammers-mtsender = "=0.8.1"
grammers-tl-types = "=0.8.0"
actix-web = { version = "*", default-features = false, features = ["macros"] }
actix-cors = "*"
actix-rt = "*"
async-stream = "*"
