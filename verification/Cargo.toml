[package]
name = "psocial3"
version = "0.1.0"
edition = "2021"
publish = false

[dependencies]
anyhow = "=1.0.104"
base64 = "=0.22.1"
chrono = { version = "=0.4.45", default-features = false, features = ["clock", "std", "serde"] }
dotenvy = "=0.15.7"
jsonwebtoken = "=9.3.1"
poem = { version = "=3.1.12", features = ["cookie", "static-files"] }
poem-openapi = { version = "=5.1.16", features = ["swagger-ui"] }
reqwest = { version = "=0.12.28", default-features = false }
serde = { version = "=1.0.229", features = ["derive"] }
serde_json = { version = "=1.0.154", features = ["raw_value"] }
sqlx = { version = "=0.8.6", default-features = false, features = ["runtime-tokio", "postgres", "uuid", "chrono"] }
tokio = { version = "=1.54.1", features = ["macros", "rt-multi-thread"] }
tracing = "=0.1.44"
tracing-appender = "=0.2.5"
tracing-subscriber = { version = "=0.3.23", features = ["env-filter"] }
uuid = { version = "=1.29.1", features = ["v4", "serde"] }
