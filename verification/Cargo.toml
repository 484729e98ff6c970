[package]
name = "dsaccess"
version = "0.1.0"
edition = "2021"
publish = false

[dependencies]
serde = { version = "1", features = ["derive"] }
serde_json = "1"
serde_dynamodb = "0.6"
rusoto_core = "0.45"
rusoto_dynamodb = "0.45"
lambda_runtime = "0.2"
aws_lambda_events = "0.3"
tokio = { version = "0.2", features = ["macros"] }
lazy_static = "1.4"
log = "0.4"
simple_logger = "1"
simple-error = "0.2"
