[package]
name = "auth_service"
version = "0.1.0"
edition = "2021"
publish = false

[dependencies]
argon2 = "=0.6.0"
jsonwebtoken = { version = "=11.1.0", default-features = false, features = ["rust_crypto"] }
uuid = { version = "=1.27.0", features = ["v4"] }
rand = "=0.10.3"
axum = "*"
axum-extra = { version = "*", features = ["cookie"] }
tokio = { version = "*", features = ["rt-multi-thread", "macros", "net"] }
serde = { version = "*", features = ["derive"] }
serde_json = "*"
chrono = "*"
redis = "*"
dotenvy = "*"
