[package]
name = "aspen_core"
version = "0.1.0"
edition = "2021"
publish = false

[dependencies]
tokio = { version = "=1.54.1", features = ["sync", "rt-multi-thread", "macros", "time"] }
tokio-stream = { version = "=0.1.19", features = ["sync"] }
dashmap = "=6.2.1"
uuid = { version = "=1.29.0", features = ["v7", "serde"] }
serde = { version = "=1.0.229", features = ["derive"] }
serde_json = "=1.0.154"
ciborium = "=0.2.2"
anyhow = "=1.0.104"
thiserror = "2"
tracing = "=0.1.44"
tracing-subscriber = { version = "=0.3.23", features = ["env-filter"] }
quinn = { version = "=0.11.12", default-features = false, features = ["runtime-tokio", "rustls-ring", "log"] }
rustls = { version = "=0.23.46", default-features = false, features = ["ring", "std", "logging", "tls12"] }
rustls-pemfile = "=2.2.0"
rcgen = "=0.13.2"
clap = { version = "=4.6.7", features = ["derive"] }
directories-next = "=2.0.0"
dotenvy = "=0.15.7"
diesel = { version = "=2.3.14", default-features = false, features = ["postgres_backend", "uuid", "chrono"] }
diesel-async = { version = "=0.9.2", features = ["postgres", "deadpool"] }
argon2 = "=0.5.3"
async-nats = "=0.50.0"
futures-util = "=0.3.34"
bytes = "=1.12.1"
chrono = "=0.4.45"
rand = "=0.9.5"
rand_chacha = "=0.9.0"
base64 = "=0.22.1"
axum = "0.8"
config = { version = "0.15", default-features = false, features = ["toml"] }
