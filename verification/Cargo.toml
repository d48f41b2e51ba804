[package]
name = "blog"
version = "0.1.0"
edition = "2021"
publish = false

[dependencies]
argon2 = { version = "=0.5.3", features = ["std"] }
regex = "=1.13.1"
validator = { version = "=0.20.0", features = ["derive"] }
sha2 = "=0.10.9"
uuid = { version = "=1.29.0", features = ["v4"] }
rand = "=0.8.8"
captcha-rs = "=0.5.0"
jsonwebtoken = "=9.3.1"
serde_json = { version = "=1.0.154", features = ["raw_value"] }
serde = { version = "=1.0.229", features = ["derive"] }
chrono = { version = "=0.4.45", features = ["serde"] }
dotenvy = "=0.15.7"
thiserror = "=2.0.21"
anyhow = "=1.0.104"
lazy_static = "=1.5.1"
axum = { version = "=0.8.9", features = ["macros"] }
tokio = { version = "=1.54.1", features = ["rt-multi-thread", "macros", "net"] }
sqlx = { version = "=0.8.6", default-features = false, features = ["runtime-tokio", "postgres", "chrono"] }
lettre = { version = "=0.11.23", default-features = false, features = ["tokio1", "smtp-transport", "builder", "tokio1-rustls-tls"] }
