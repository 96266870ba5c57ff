[package]
name = "hookly"
version = "0.1.0"
edition = "2021"
publish = false

[dependencies]
aes-gcm = "=0.10.3"
base64 = "=0.22.1"
hmac = "=0.12.1"
sha2 = "=0.10.9"
nanoid = "=0.4.0"
uuid = { version = "=1.29.0", features = ["v4", "v7", "serde"] }
jsonwebtoken = "=9.3.1"
serde_json = "=1.0.154"
jsonschema = { version = "=0.60.2", default-features = false }
serde = { version = "=1.0.229", features = ["derive"] }
axum = "=0.7.9"
tower = "=0.5.3"
tokio = { version = "=1.54.1", features = ["rt", "macros"] }
tracing = "=0.1.44"
chrono = { version = "=0.4.45", features = ["serde"] }
serde_qs = "=1.1.3"
envy = "=0.4.2"
validator = "=0.21.0"
async-trait = "=0.1.92"
redis = { version = "=1.8.1", default-features = false, features = ["aio", "tokio-comp"] }
sqlx = { version = "0.8", default-features = false, features = ["postgres", "runtime-tokio", "uuid", "chrono", "json", "macros"] }
futures-core = "=0.3.34"
either = "1"
