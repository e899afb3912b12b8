[package]
name = "blog_backend"
version = "0.1.0"
edition = "2021"
publish = false

[dependencies]
html-escape = "0.2"
uuid = { version = "1", features = ["v4", "serde"] }
chrono = { version = "0.4", features = ["serde"] }
serde = { version = "1", features = ["derive"] }
serde_json = "1"
thiserror = "1"
tracing = "0.1"
tracing-subscriber = "0.3"
tokio = { version = "1", features = ["full"] }
futures = "0.3"
axum = { version = "0.6", features = ["headers", "ws"] }
sqlx = { version = "0.7", default-features = false, features = ["runtime-tokio", "postgres", "uuid", "chrono", "json", "macros"] }
redis = { version = "0.25", features = ["tokio-comp"] }
jsonwebtoken = "9"
argon2 = "0.5"
dotenv = "0.15"
utoipa = { version = "4", features = ["axum_extras", "chrono", "uuid"] }
utoipa-swagger-ui = { version = "4", features = ["axum"] }
