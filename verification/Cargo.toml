[package]
name = "every_discord_bot"
version = "0.1.0"
edition = "2021"
publish = false

[dependencies]
async-trait = "=0.1.92"
base64 = "=0.22.1"
dotenvy = "=0.15.7"
poise = "0.6"
rand = "=0.8.8"
reqwest = { version = "0.11", features = ["json"] }
rusqlite = "0.31"
serde = { version = "=1.0.229", features = ["derive"] }
serde_json = "=1.0.154"
serenity = "0.12"
tokio = { version = "=1.54.1", features = ["rt-multi-thread", "macros", "time", "process", "sync"] }
tracing = "=0.1.44"
tracing-subscriber = "=0.3.23"
