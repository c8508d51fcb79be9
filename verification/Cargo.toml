[package]
name = "piarch_token"
version = "0.1.0"
edition = "2021"
publish = false

[dependencies]
jsonwebtoken = "9"
serde_json = "1"
serde = { version = "1", features = ["derive"] }
chrono = "0.4"
mongodb = { version = "*", features = ["sync"] }
rocket = "0.5"
dotenv = "0.15"
once_cell = "1"

[dev-dependencies]
rsa = { version = "0.9", features = ["pem"] }
rand = "0.8"
