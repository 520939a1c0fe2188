[package]
name = "airtips"
version = "0.1.0"
edition = "2021"
publish = false

[dependencies]
jsonwebtoken = "9"
serde_json = "1"
serde = { version = "1", features = ["derive"] }
axum = "0.8"
axum-extra = { version = "0.10", features = ["typed-header"] }
tokio = { version = "1", features = ["macros", "rt-multi-thread", "net", "sync"] }
tower-http = { version = "0.6", features = ["compression-gzip"] }
sqlx = { version = "0.8", default-features = false, features = ["runtime-tokio", "postgres", "uuid", "time"] }
uuid = "1"
time = "0.3"
dotenvy = "0.15"
tracing = "0.1"
reqwest = { version = "0.12", default-features = false, features = ["json"] }
tokio-tungstenite = "0.24"
futures-util = "0.3"
toml = "0.8"
