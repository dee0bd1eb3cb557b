[package]
name = "auth-service"
version = "0.1.0"
edition = "2021"
publish = false

[dependencies]
argon2 = "0.5"
async-trait = "0.1"
axum = "0.7"
axum-extra = { version = "0.9", features = ["cookie"] }
chrono = { version = "0.4", default-features = false, features = ["clock"] }
color-eyre = { version = "0.6", default-features = false }
config = { version = "0.14", default-features = false, features = ["toml"] }
dotenvy = "0.15"
jsonwebtoken = "9"
proc-macro2 = "1"
quote = "1"
rand = "0.8"
redis = { version = "0.25", features = ["tokio-comp"] }
regex = "1"
reqwest = { version = "0.12", default-features = false, features = ["json", "rustls-tls"] }
secrecy = "0.8"
serde = { version = "1", features = ["derive"] }
serde_json = "1"
sqlx = { version = "0.7", default-features = false, features = ["runtime-tokio", "postgres", "migrate"] }
syn = { version = "2", features = ["full"] }
thiserror = "1"
tokio = { version = "1", features = ["full"] }
tower-http = { version = "0.5", features = ["fs", "cors"] }
tracing = "0.1"
validator = "0.16"

[dev-dependencies]
fake = "2"
