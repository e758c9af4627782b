[package]
name = "s3-edit"
version = "0.1.0"
edition = "2021"
publish = false

[dependencies]
anyhow = "=1.0.104"
aws-config = { version = "=1.12.0", features = ["behavior-version-latest"] }
aws-sdk-s3 = "=1.152.0"
aws-smithy-runtime = { version = "=1.16.1", features = ["connector-hyper-0-14-x"] }
aws-types = "=1.6.0"
clap = "=4.6.7"
env_logger = "=0.11.11"
hyper = { version = "=0.14.32", features = ["full"] }
hyper-proxy = "=0.9.1"
inquire = "=0.7.5"
log = "=0.4.34"
tempfile = "=3.27.0"
tokio = { version = "=1.54.1", features = ["full"] }
