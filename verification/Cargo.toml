[package]
name = "srv"
version = "0.1.0"
edition = "2021"
publish = false

[dependencies]
axum = "0.6"
mime_guess = "2"
serde = { version = "1", features = ["derive"] }
tokio = { version = "1", features = ["full"] }
toml = "0.7"
tower-http = { version = "0.4", features = ["fs", "cors", "trace"] }
tracing = "0.1"
tracing-subscriber = { version = "0.3", features = ["env-filter"] }
