[package]
name = "sqsfs"
version = "0.1.0"
edition = "2021"
publish = false

[dependencies]
url = "*"
anyhow = "*"
log = "*"
env_logger = "*"
libc = "*"
fuser = "*"
procfs = "*"
clap = { version = "*", features = ["derive"] }
tokio = { version = "*", features = ["macros", "rt-multi-thread"] }
aws-config = "*"
aws-sdk-sqs = "*"
