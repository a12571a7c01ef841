[package]
name = "memebot"
version = "0.1.0"
edition = "2021"
publish = false

[dependencies]
mime = "=0.3.17"
uuid = { version = "=1.29.0", features = ["v4", "serde"] }
serde = { version = "=1.0.229", features = ["derive"] }
serde_json = "=1.0.154"
envconfig = "=0.11.1"
dotenv = "=0.15.0"
log = "=0.4.35"
pretty_env_logger = "=0.5.0"
anyhow = "=1.0.104"
async-trait = "=0.1.92"
tokio = { version = "=1.54.1", features = ["macros", "rt-multi-thread"] }
teloxide = { version = "=0.17.0", default-features = false, features = ["macros", "redis-storage"] }
dptree = "=0.5.1"
rust-i18n = "=4.2.4"
sentry = { version = "=0.49.5", default-features = false }
takecell = "=0.1.1"
