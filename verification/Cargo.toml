[package]
name = "kobot"
version = "0.1.0"
edition = "2021"
publish = false

[dependencies]
redis = { version = "0.21", features = ["tokio-comp"] }
serenity = "0.10"
tokio = { version = "1", features = ["rt-multi-thread"] }
thiserror = "1"
