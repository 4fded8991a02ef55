[package]
name = "ninegag_video"
version = "0.1.0"
edition = "2021"
publish = false

[dependencies]
url = "=2.5.8"
reqwest = { version = "=0.13.5", default-features = false }
bytes = "=1.12.1"
anyhow = "=1.0.104"
teloxide = { version = "=0.17.0", default-features = false }
takecell = "=0.1.1"
