[package]
name = "anotaai"
version = "0.1.0"
edition = "2021"
publish = false

[dependencies]
anyhow = "1"
aws-config = "1"
aws-sdk-s3 = { version = "1", default-features = false, features = ["rt-tokio", "rustls"] }
aws-sdk-sns = { version = "1", default-features = false, features = ["rt-tokio", "rustls"] }
aws_lambda_events = { version = "=0.15.1", default-features = false, features = ["sqs"] }
axum = "=0.7.9"
dotenvy = "0.15"
futures = "0.3"
lambda_runtime = "=0.13.0"
mongodb = "=2.8.2"
reqwest = { version = "=0.12.28", default-features = false, features = ["rustls-tls"] }
serde = { version = "1", features = ["derive"] }
serde_json = "1"
tokio = { version = "1", features = ["macros", "rt-multi-thread", "net"] }
tower-http = { version = "=0.5.2", features = ["trace"] }
tracing = "0.1"
tracing-subscriber = "0.3"
