[package]
name = "chat_hub"
version = "0.1.0"
edition = "2021"
publish = false

[dependencies]
axum = { version = "=0.6.20", features = ["ws", "headers"] }
bb8 = "=0.8.6"
bb8-postgres = "=0.8.1"
chrono = "=0.4.45"
dotenv = "=0.15.0"
futures = "=0.3.34"
futures-util = "=0.3.34"
jsonwebtoken = "=8.3.0"
serde = { version = "=1.0.229", features = ["derive"] }
serde_json = "=1.0.151"
tokio = { version = "=1.53.2", features = ["full"] }
tokio-postgres = { version = "=0.7.18", features = ["with-chrono-0_4"] }
tokio-postgres-migration = "=0.1.0"
