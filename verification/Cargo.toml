[package]
name = "credential_broker"
version = "0.1.0"
edition = "2021"
publish = false

[dependencies]
aws-config = "0.51"
aws-sdk-s3 = "0.21"
gcp_auth = "0.7"
lambda_http = "0.7"
serde_json = "1"
tokio = { version = "1", features = ["macros", "io-util", "rt-multi-thread"] }
tracing = "0.1"
tracing-subscriber = { version = "0.3", default-features = false, features = ["fmt"] }
