[package]
name = "alibaba-cloud-kms"
version = "0.1.0"
edition = "2021"
publish = false

[dependencies]
aliyun-openapi-core-rust-sdk = "=1.1.0"
reqwest = "=0.11.27"
serde = { version = "=1.0.229", features = ["derive"] }
serde_json = "=1.0.154"
