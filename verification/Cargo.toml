[package]
name = "doorlock"
version = "0.1.0"
edition = "2021"
publish = false

[dependencies]
libreauth = "*"
axum = "*"
tokio = { version = "*", features = ["full"] }
serde = { version = "*", features = ["derive"] }
handlebars = "*"
rppal = "*"
tracing = "*"
tracing-subscriber = "*"
