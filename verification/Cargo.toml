[package]
name = "lambda_handlers"
version = "0.1.0"
edition = "2021"
publish = false

[dependencies]
lambda_http = "*"
lambda_runtime = "*"
serde_json = "*"
tokio = { version = "*", features = ["macros", "rt"] }
