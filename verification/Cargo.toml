[package]
name = "products"
version = "0.1.0"
edition = "2021"
publish = false

[dependencies]
rayon = "*"
serde = { version = "*", features = ["derive"] }
serde_json = "*"
tracing = "*"
lambda_runtime = "*"
async-trait = "*"
aws-sdk-dynamodb = "*"
