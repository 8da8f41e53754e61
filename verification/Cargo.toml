[package]
name = "talium"
version = "0.1.0"
edition = "2021"
publish = false

[dependencies]
regex = "=1.13.1"
url = "=2.5.8"
rand = "=0.9.5"
serde = { version = "=1.0.229", features = ["derive"] }
serde_json = "=1.0.154"
serde_with = "=3.24.0"
tokio = { version = "=1.54.1", features = ["full"] }
axum = "=0.8.9"
tower-http = { version = "=0.6.11", features = ["cors", "fs", "redirect"] }
tower-service = "=0.3.3"
tower = "=0.5.3"
http = "=1.5.0"
log = "=0.4.35"
env_logger = "=0.11.11"
anyhow = "=1.0.104"
reqwest = { version = "=0.13.5", default-features = false, features = ["json"] }
sqlx = { version = "=0.8.6", default-features = false, features = ["mysql", "runtime-tokio", "macros", "chrono"] }
twitch_highway = { version = "=0.8.0", features = ["websocket"] }
