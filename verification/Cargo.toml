[package]
name = "mail_sessions"
version = "0.1.0"
edition = "2021"
publish = false

[dependencies]
dashmap = "*"
sha2 = "*"
serde = { version = "*", features = ["derive"] }
serde_json = "*"
keyring = "*"
