[package]
name = "sqs_listener"
version = "0.1.0"
edition = "2021"
publish = false

[dependencies]
act-zero = { version = "=0.4.0", features = ["tokio"] }
async-trait = "=0.1.92"
aws-config = "=1.13.0"
aws-credential-types = "=1.3.1"
aws-sdk-sqs = { version = "=1.117.0", features = ["behavior-version-latest"] }
aws-smithy-runtime-api = "=1.19.1"
log = "=0.4.34"
thiserror = "=1.0.69"
tokio = { version = "=1.54.1", features = ["macros", "rt-multi-thread", "sync", "time"] }
