[package]
name = "jwt_auth"
version = "0.1.0"
edition = "2021"
publish = false

[dependencies]
rust-argon2 = "1.0"
jsonwebtoken = "8"
serde = { version = "1", features = ["derive"] }
serde_json = "1"
axum = "0.6"
tower-cookies = "0.9"
tokio = { version = "1", features = ["full"] }
toml = "0.7"
async-trait = "0.1"
chrono = "0.4"
aws-config = "0.55"
aws-sdk-dynamodb = "0.28"
