[package]
name = "transaction_signer"
version = "0.1.0"
edition = "2021"
publish = false

[dependencies]
anyhow = "1"
aws_lambda_events = { version = "*", default-features = false, features = ["sqs"] }
hex = "0.4"
lambda_runtime = "*"
serde = { version = "1", features = ["derive"] }
serde_json = "1"
sqlx = { version = "0.8", default-features = false, features = ["postgres", "runtime-tokio", "time", "migrate"] }
tokio = { version = "1", features = ["macros", "rt-multi-thread"] }
