[package]
name = "sakaloka"
version = "0.1.0"
edition = "2021"
publish = false

[dependencies]
uuid = { version = "=1.29.0", features = ["v4"] }
sha2 = "=0.10.9"
chrono = { version = "=0.4.45", features = ["serde"] }
serde = { version = "=1.0.229", features = ["derive"] }
serde_json = "=1.0.154"
jsonwebtoken = "=9.3.1"
argon2 = { version = "=0.5.3", features = ["std"] }
tokio = { version = "=1.54.1", features = ["rt-multi-thread", "macros"] }
axum = "=0.8.9"
tower = "=0.5.3"
dotenvy = "=0.15.7"
sqlx = { version = "0.8", default-features = false, features = ["runtime-tokio", "postgres", "uuid", "chrono", "json", "macros", "migrate"] }
