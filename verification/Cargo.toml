[package]
name = "chat_dispatch"
version = "0.1.0"
edition = "2021"
publish = false

[dependencies]
dotenv = "0.15"
rand = "0.8"
reqwest = { version = "0.12", features = ["blocking", "json"] }
serde = { version = "1", features = ["derive"] }
serde_json = "1"
termion = "*"
