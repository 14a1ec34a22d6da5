[package]
name = "mintcore"
version = "0.1.0"
edition = "2021"
publish = false

[dependencies]
uuid = { version = "1", features = ["v4"] }
candid = "*"
ic-agent = "*"
pinata-sdk = "*"
chrono = "*"
serde = { version = "*", features = ["derive"] }
serde_json = "*"
dotenv = "*"
