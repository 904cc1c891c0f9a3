[package]
name = "still_bott"
version = "0.1.0"
edition = "2021"
publish = false

[dependencies]
time = { version = "=0.3.55", features = ["formatting", "parsing"] }
random-number = "=0.1.10"
rss = "=2.1.2"
uuid = { version = "=1.29.0", features = ["v4", "serde"] }
chrono = "=0.4.45"
serde = { version = "=1.0.229", features = ["derive"] }
serde_json = "=1.0.154"
tokio = { version = "=1.54.1", features = ["full"] }
reqwest = { version = "=0.11.27", default-features = false, features = ["json", "multipart", "rustls-tls"] }
oauth2 = "=4.4.2"
axum = "=0.6.20"
http = "=0.2.12"
tracing = "=0.1.44"
tracing-subscriber = { version = "=0.3.23", features = ["env-filter"] }
envy = "=0.4.2"
once_cell = "=1.21.4"
rust-s3 = { version = "=0.33.0", default-features = false, features = ["tokio-rustls-tls"] }
oauth1-request = "=0.6.1"
mail-send = "0.4"

[dev-dependencies]
clokwerk = "=0.4.0"
