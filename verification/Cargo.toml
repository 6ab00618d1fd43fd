[package]
name = "apigw_authorizer"
version = "0.1.0"
edition = "2021"
publish = false

[dependencies]
serde = { version = "*", features = ["derive"] }
serde_json = "*"
log = "*"
simple_logger = "*"
