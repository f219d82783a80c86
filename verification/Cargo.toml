[package]
name = "render_session"
version = "0.1.0"
edition = "2021"
publish = false

[dependencies]
base64 = "*"
chromiumoxide = "*"
futures-util = "*"
lambda_runtime = "*"
serde = { version = "*", features = ["derive"] }
tokio = { version = "*", features = ["full"] }
tracing = "*"
tracing-subscriber = "*"
