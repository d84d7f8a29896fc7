[package]
name = "rayquabot"
version = "0.1.0"
edition = "2021"
publish = false

[dependencies]
chrono = "=0.4.45"
serenity = { version = "=0.11.7", features = ["collector", "unstable_discord_api"] }
mongodb = "=2.8.2"
tokio = { version = "=1.54.1", features = ["macros", "rt-multi-thread"] }
once_cell = "=1.21.4"
