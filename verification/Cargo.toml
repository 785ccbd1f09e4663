[package]
name = "alumnos_api"
version = "0.1.0"
edition = "2021"
publish = false

[dependencies]
validator = "*"
serde = { version = "*", features = ["derive"] }
serde_json = "*"
chrono = { version = "*", features = ["serde"] }
anyhow = "*"
dotenv = "*"
tokio = { version = "*", features = ["full"] }
axum = "*"
tower = "*"
tower-http = { version = "*", features = ["cors", "trace"] }
tracing = "*"
tracing-subscriber = { version = "*", features = ["env-filter"] }
sqlx = { version = "*", default-features = false, features = ["mysql", "runtime-tokio", "chrono", "macros"] }
