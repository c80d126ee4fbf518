[package]
name = "ai_computer_toolkit"
version = "0.1.0"
edition = "2021"
publish = false

[dependencies]
serde = { version = "1", features = ["derive"] }
serde_json = "1"
zbus = "5"
reis = { version = "*", features = ["async-io"] }
async-io = "2"
futures-lite = "2"
