[package]
name = "prediction_creator"
version = "0.1.0"
edition = "2021"
publish = false

[dependencies]
anyhow = "*"
clap = { version = "*", features = ["derive"] }
console = "*"
dialoguer = "*"
reqwest = "*"
tokio = { version = "*", features = ["macros", "rt-multi-thread"] }
twitch_api = { version = "*", features = ["helix", "reqwest", "client"] }
