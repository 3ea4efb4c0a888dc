[package]
name = "rtfm"
version = "0.1.0"
edition = "2021"
publish = false

[dependencies]
anyhow = "=1.0.104"
axum = { version = "=0.8.9", features = ["multipart"] }
chrono = "=0.4.45"
clap = { version = "=4.6.7", features = ["derive"] }
crossterm = "=0.28.1"
dirs = "=5.0.1"
flate2 = "=1.1.10"
jieba-rs = "=0.7.4"
parking_lot = "=0.12.5"
pulldown-cmark = { version = "=0.10.3", default-features = false }
ratatui = "=0.29.0"
redb = "=2.6.4"
reqwest = { version = "=0.12.28", default-features = false, features = ["json", "rustls-tls"] }
serde = { version = "=1.0.229", features = ["derive"] }
serde_json = "=1.0.154"
tantivy = "=0.22.1"
tar = "=0.4.46"
thiserror = "=1.0.69"
tokio = { version = "=1.54.1", features = ["rt-multi-thread", "macros", "sync", "net", "signal"] }
toml = "=0.8.23"
tower-http = { version = "=0.6.11", features = ["cors"] }
tracing = "=0.1.44"
tracing-appender = "=0.2.5"
tracing-subscriber = { version = "=0.3.23", features = ["env-filter"] }
unicode-width = "=0.2.0"
utoipa = "5"
utoipa-swagger-ui = { version = "9", features = ["axum", "vendored"] }
zip = { version = "=2.6.1", default-features = false, features = ["deflate"] }
