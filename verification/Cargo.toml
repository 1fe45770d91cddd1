[package]
name = "task_tracker"
version = "0.1.0"
edition = "2021"
publish = false

[dependencies]
actix-web = "4"
derive_more = { version = "*", features = ["display"] }
env_logger = "*"
serde = { version = "1", features = ["derive"] }
uuid = { version = "1", features = ["v4"] }
