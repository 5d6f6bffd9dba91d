[package]
name = "account_service"
version = "0.1.0"
edition = "2021"
publish = false

[dependencies]
anyhow = "1"
argon2 = "=0.5.3"
axum = "0.7"
axum-extra = { version = "0.9", features = ["typed-header"] }
chrono = "=0.4.45"
clap = { version = "4", features = ["derive"] }
config = { version = "0.14", default-features = false, features = ["toml"] }
deadpool-lapin = "0.12"
deadpool-redis = "0.15"
http-body-util = "0.1"
jsonwebtoken = "=9.3.1"
lettre = { version = "0.11", default-features = false, features = ["builder", "smtp-transport", "tokio1", "rustls-tls", "tokio1-rustls-tls"] }
rand = "=0.8.8"
rand_core = { version = "=0.6.4", features = ["getrandom"] }
serde = { version = "1", features = ["derive"] }
serde_json = "=1.0.154"
sqlx = { version = "0.7", default-features = false, features = ["postgres", "runtime-tokio", "macros", "chrono"] }
thiserror = "1"
tokio = { version = "1", features = ["full"] }
tower-http = { version = "0.5", features = ["timeout"] }
tracing = "0.1"
tracing-appender = "0.2"
tracing-subscriber = { version = "0.3", features = ["json"] }
