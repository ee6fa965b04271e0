[package]
name = "backend"
version = "0.1.0"
edition = "2021"
publish = false

[dependencies]
chrono = { version = "0.4.42", features = ["serde"] }
uuid = { version = "1.8", features = ["v4", "serde"] }
serde = { version = "1.0.226", features = ["derive"] }
csv = "1.3.1"
axum = "0.8.6"
tokio = { version = "1", features = ["full"] }
http = "1"
tower-http = { version = "0.6.6", features = ["cors", "trace"] }
tracing-subscriber = { version = "0.3", features = ["env-filter"] }
dotenvy = "0.15"
sqlx = { version = "0.8.6", default-features = false, features = ["runtime-tokio", "postgres", "chrono", "uuid"] }
