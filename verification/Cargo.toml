[package]
name = "thiscord"
version = "0.1.0"
edition = "2021"
publish = false

[dependencies]
argon2 = "=0.5.3"
rand = "=0.9.5"
uuid = { version = "=1.29.0", features = ["v4", "serde"] }
dashmap = "=6.2.1"
hmac = "=0.12.1"
sha1 = "=0.10.7"
base64 = "=0.22.1"
chrono = "=0.4.45"
serde = { version = "=1.0.229", features = ["derive"] }
serde_json = "=1.0.154"
tokio = { version = "1", features = ["full"] }
axum = { version = "0.8", features = ["ws", "multipart"] }
axum-login = "0.17"
tower-sessions-sqlx-store = { version = "0.15", features = ["postgres"] }
tower-http = { version = "0.6", features = ["fs", "trace", "limit"] }
axum-server = { version = "0.7", features = ["tls-rustls-no-provider"] }
rustls = { version = "0.23", default-features = false, features = ["ring", "std", "tls12", "logging"] }
diesel = { version = "2", features = ["postgres", "r2d2", "uuid", "chrono"] }
diesel-derive-enum = { version = "2", features = ["postgres"] }
lettre = { version = "0.11", features = ["tokio1", "tokio1-native-tls"] }
futures-util = "0.3"
tokio-util = { version = "0.7", features = ["io"] }
dotenvy = "0.15"
tracing = "0.1"
tracing-subscriber = { version = "0.3", features = ["env-filter"] }
async-trait = "0.1"
