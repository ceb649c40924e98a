[package]
name = "my_music"
version = "0.1.0"
edition = "2021"
publish = false

[dependencies]
argon2 = "=0.5.3"
axum = { version = "=0.8.9", features = ["ws"] }
axum-extra = { version = "=0.10.3", features = ["cookie"] }
chrono = { version = "=0.4.45", default-features = false, features = ["clock", "serde", "std"] }
color-eyre = "=0.6.5"
headers = "=0.4.2"
hmac = "=0.12.1"
http = "=1.5.0"
http-body = "=1.1.0"
http-body-util = "=0.1.5"
jwt = "=0.16.0"
mime_guess = "=2.0.5"
opendal = { version = "=0.53.3", default-features = false, features = ["services-fs", "services-s3", "layers-tracing"] }
rustc-hash = "=2.1.3"
serde = { version = "=1.0.229", features = ["derive"] }
serde_json = "=1.0.154"
sha2 = "=0.10.9"
sqlx = { version = "=0.8.6", default-features = false, features = ["chrono", "derive", "migrate", "runtime-tokio", "sqlite"] }
symphonia = { version = "=0.5.5", features = ["flac", "mp3"] }
thiserror = "=2.0.21"
tokio = { version = "=1.54.1", features = ["full"] }
tokio-stream = "=0.1.19"
tokio-util = { version = "=0.7.20", features = ["io"] }
tower-http = { version = "=0.6.11", features = ["cors", "normalize-path", "trace"] }
tracing = "=0.1.44"
tracing-subscriber = { version = "=0.3.23", features = ["env-filter"] }
