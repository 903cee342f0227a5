[package]
name = "discord_updater"
version = "0.1.0"
edition = "2021"
publish = false

[dependencies]
anyhow = "1"
clap = { version = "4", features = ["derive"] }
flate2 = "1"
libc = "0.2"
reqwest = { version = "0.12", default-features = false }
tar = "0.4"
tokio = { version = "1", features = ["macros", "rt-multi-thread", "fs", "io-util"] }
