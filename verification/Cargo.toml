[package]
name = "archive_pipeline"
version = "0.1.0"
edition = "2021"
publish = false

[dependencies]
zip = { version = "*", default-features = false }
serde = { version = "*", features = ["derive"] }
actix-web = "*"
tokio = { version = "*", features = ["sync", "macros", "rt-multi-thread"] }
aws-config = "*"
aws-sdk-s3 = "*"
aws-credential-types = "*"
dotenv = "*"
env_logger = "*"
log = "*"
