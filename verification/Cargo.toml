[package]
name = "dispensary"
version = "0.1.0"
edition = "2021"
publish = false

[dependencies]
async-trait = "=0.1.92"
aws-config = "=1.12.0"
aws_lambda_events = "=1.2.1"
aws-sdk-dynamodb = "=1.131.0"
aws-sdk-kinesis = "=1.125.0"
aws-sdk-s3 = "=1.152.0"
aws-types = "=1.6.0"
axum = "=0.8.9"
axum-aws-lambda = "=0.11.0"
chrono = { version = "=0.4.45", features = ["serde"] }
cqrs-es = "=0.4.12"
dotenvy = "=0.15.7"
dynamo-es = "=0.4.12"
lambda_http = "=1.3.2"
lambda_runtime = "=1.5.0"
serde = { version = "=1.0.229", features = ["derive"] }
serde_bytes = "=0.11.19"
serde_dynamo = "=4.3.0"
serde_json = "=1.0.154"
thiserror = "=1.0.69"
tokio = { version = "=1.54.1", features = ["macros", "rt-multi-thread"] }
tower = "=0.5.3"
tracing = "=0.1.44"
tracing-subscriber = "=0.3.23"
ulid = "=1.2.1"
