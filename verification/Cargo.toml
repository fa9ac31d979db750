[package]
name = "a_chat_api"
version = "0.1.0"
edition = "2021"
publish = false

[dependencies]
anyhow = "1"
axum = "0.6"
diesel = { version = "1.4", features = ["mysql"] }
dotenv = "0.15"
serde = { version = "1", features = ["derive"] }
serde_json = "1"
sqlx = { version = "0.6", default-features = false, features = ["runtime-tokio-rustls", "mysql"] }
tokio = { version = "1", features = ["full"] }
