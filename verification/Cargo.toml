[package]
name = "job_board"
version = "0.1.0"
edition = "2021"
publish = false

[dependencies]
regex = "*"
uuid = { version = "*", features = ["v4"] }
chrono = "*"
aws-sdk-dynamodb = "*"
aws-config = "*"
async-graphql = "*"
serde = { version = "*", features = ["derive"] }
