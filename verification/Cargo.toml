[package]
name = "rust_bot"
version = "0.1.0"
edition = "2021"
publish = false

[dependencies]
indexmap = "2"
actix = "0.13"
anyhow = "1"
chrono = { version = "0.4", features = ["serde"] }
dotenv = "0.15"
lettre = "0.11"
rand = "0.8"
serde = { version = "1", features = ["derive"] }
tokio = { version = "1", features = ["full"] }
