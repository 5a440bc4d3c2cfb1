[package]
name = "weather_forecast_wechat_bot"
version = "0.1.0"
edition = "2021"
publish = false

[dependencies]
anyhow = "1"
argon2 = { version = "0.5", features = ["std"] }
axum = "0.7"
axum-messages = "0.7"
chrono = { version = "0.4", default-features = false, features = ["std", "serde"] }
config = { version = "0.14", default-features = false, features = ["yaml"] }
htmlescape = "0.3"
reqwest = { version = "0.12", default-features = false, features = ["json"] }
secrecy = { version = "0.10", features = ["serde"] }
serde = { version = "1", features = ["derive"] }
serde_json = "1"
sqlx = { version = "0.8", default-features = false, features = ["runtime-tokio", "postgres", "uuid", "chrono"] }
thiserror = "1"
tokio = { version = "1", features = ["macros", "rt-multi-thread", "net"] }
tower = "0.5"
tower-sessions = "0.13"
tracing = "0.1"
tracing-subscriber = "0.3"
uuid = { version = "1", features = ["v4", "serde"] }
