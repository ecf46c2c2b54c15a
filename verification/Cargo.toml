[package]
name = "lambda_bridge"
version = "0.1.0"
edition = "2021"
publish = false

[dependencies]
actix-http = "3"
actix-service = "2"
actix-web = "4"
axum = "0.5"
http = "0.2"
hyper = { version = "0.14", features = ["server", "http1", "tcp"] }
lambda_http = "0.5"
lambda_runtime = "0.5"
serde = "1"
tokio = { version = "1", features = ["sync"] }
tower = "0.4"
