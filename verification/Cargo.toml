[package]
name = "grammarbot"
version = "0.1.0"
edition = "2021"
publish = false

[dependencies]
poise = "0.6"
tokio = { version = "1", features = ["macros", "rt-multi-thread"] }
serde = { version = "1", features = ["derive"] }
log = "0.4"
log4rs = "1"
once_cell = "1"
env_logger = "0.11"
chrono = "0.4"
