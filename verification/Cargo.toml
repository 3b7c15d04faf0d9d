[package]
name = "decentralised_lambda_runtime"
version = "0.1.0"
edition = "2021"
publish = false

[dependencies]
http = "*"

[dev-dependencies]
serde_json = "*"
