[package]
name = "root_s3"
version = "0.1.0"
edition = "2021"
publish = false

[dependencies]
anyhow = "*"
aws-credential-types = "*"
aws-sdk-s3 = { version = "*", default-features = false }
aws-smithy-runtime-api = "*"
aws-types = "*"
bytes = "*"
clap = { version = "*", features = ["derive"] }
env_logger = "*"
log = "*"
thiserror = "*"
tokio = { version = "*", features = ["rt-multi-thread", "macros", "fs", "io-util", "sync"] }
