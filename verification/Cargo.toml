[package]
name = "watchpost"
version = "0.1.0"
edition = "2021"
publish = false

[dependencies]
notify = "=8.2.0"
reqwest = { version = "=0.13.5", default-features = false, features = ["blocking", "multipart", "json", "query"] }
serde = { version = "=1.0.229", features = ["derive"] }
eyre = "=0.6.14"
color-eyre = "=0.6.5"
anyhow = "=1.0.104"
tracing = "=0.1.44"
tracing-subscriber = "=0.3.23"
