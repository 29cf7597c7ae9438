[package]
name = "vod_pipeline"
version = "0.1.0"
edition = "2021"
publish = false

[dependencies]
uuid = { version = "1", features = ["v4"] }
tokio = { version = "1", features = ["macros", "rt-multi-thread"] }
futures = "0.3"
aws-config = "1"
aws-sdk-s3 = "1"
actix-web = "4"
actix-multipart = "0.6"
dotenv = "0.15"
env_logger = "0.11"
