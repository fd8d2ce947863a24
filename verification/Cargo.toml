[package]
name = "player_count_bot"
version = "0.1.0"
edition = "2021"
publish = false

[dependencies]
serenity = "0.12"
a2s = "*"
tokio = { version = "1", features = ["rt", "macros", "signal", "time"] }
toml = "0.8"
serde = { version = "1", features = ["derive"] }
anyhow = "1"
crossterm = "*"

[dev-dependencies]
humantime = "2"
