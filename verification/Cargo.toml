[package]
name = "jp-postal-code"
version = "0.1.0"
edition = "2021"
publish = false

[dependencies]
regex = "1"
serde = { version = "1", features = ["derive"] }
serde_json = "1"
csv = "1"
zip = { version = "*", default-features = false, features = ["deflate"] }
reqwest = { version = "*", features = ["stream"] }
futures = "0.3"
tokio = { version = "1", features = ["full"] }
anyhow = "1"
thiserror = "*"
tracing = "0.1"
tracing-subscriber = { version = "0.3", features = ["env-filter"] }
tempfile = "3"
envy = "*"
dotenvy = "*"
clap = { version = "4", features = ["derive"] }
axum = "*"
tower-http = { version = "*", features = ["trace"] }
sqlx = { version = "*", features = ["postgres", "runtime-tokio", "chrono"] }
chrono = "0.4"
base64-url = "*"
