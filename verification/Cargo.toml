[package]
name = "blitzer_notifier"
version = "0.1.0"
edition = "2021"
publish = false

[dependencies]
anyhow = "=1.0.104"
config = "=0.15.27"
mysql = "=28.0.3"
reqwest = { version = "=0.13.5", features = ["json"] }
reqwest-middleware = "=0.5.2"
reqwest-retry = "=0.9.1"
serde = { version = "=1.0.229", features = ["derive"] }
serde_json = "=1.0.151"
serde_variant = "=0.1.3"
strum = "=0.28.0"
strum_macros = "=0.28.0"
takecell = "=0.1.1"
teloxide = "=0.17.0"
tokio = { version = "=1.53.2", features = ["macros", "rt-multi-thread", "time"] }
