[package]
name = "media_dashboard"
version = "0.1.0"
edition = "2021"
publish = false

[dependencies]
urlencoding = "*"
axum = "*"
chrono = "*"
reqwest = { version = "*", default-features = false, features = ["json"] }
serde = { version = "*", features = ["derive"] }
serde_json = "*"
sqlx = { version = "*", default-features = false, features = ["runtime-tokio", "sqlite", "macros"] }
tokio = { version = "*", features = ["full"] }
tower-http = { version = "*", features = ["fs"] }
