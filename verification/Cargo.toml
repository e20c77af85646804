[package]
name = "twitter_media_downloader"
version = "0.1.0"
edition = "2021"
publish = false

[dependencies]
clap = { version = "*", features = ["derive", "env"] }
env_logger = "*"
log = "*"
reqwest = "*"
tokio = { version = "*", features = ["macros", "rt-multi-thread"] }
twitter-v2 = "*"
