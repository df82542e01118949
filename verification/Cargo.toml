[package]
name = "agent_auth"
version = "0.1.0"
edition = "2021"
publish = false

[dependencies]
serde_json = "1"
keyring = "*"
reqwest = { version = "*", default-features = false, features = ["blocking", "json"] }
