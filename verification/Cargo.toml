[package]
name = "filepreview_rust"
version = "0.1.0"
edition = "2021"
publish = false

[dependencies]
base64 = "0.21"
hex = "0.4"
sha2 = "0.10"
uuid = { version = "1", features = ["v4"] }
mime_guess = "2"
serde = { version = "1", features = ["derive"] }
serde_json = "1"
axum = "0.7"
tokio = { version = "1", features = ["full"] }
tower = "0.4"
tower-http = { version = "0.5", features = ["cors", "trace", "fs"] }
tracing = "0.1"
tracing-subscriber = { version = "0.3", features = ["env-filter"] }
reqwest = { version = "0.12", default-features = false, features = ["rustls-tls"] }
tempfile = "3"
chrono = "0.4"
anyhow = "1"
thiserror = "1"
