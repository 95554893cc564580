[package]
name = "discord_bot"
version = "0.1.0"
edition = "2021"
publish = false

[dependencies]
chrono = "0.4"
dotenv = "0.15"
env_logger = "0.11"
log = "0.4"
poise = "0.6"
tokio = { version = "1", features = ["macros", "rt-multi-thread"] }
