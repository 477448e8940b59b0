[package]
name = "pingbot"
version = "0.1.0"
edition = "2021"
publish = false

[dependencies]
dotenv = "0.15"
poise = "0.5"
serenity = { version = "0.11", default-features = false, features = ["model"] }
tokio = { version = "1", features = ["macros", "rt-multi-thread"] }
tracing = "0.1"
