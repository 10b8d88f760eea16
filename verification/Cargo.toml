[package]
name = "price_cache"
version = "0.1.0"
edition = "2021"
publish = false

[dependencies]
chrono = "=0.4.45"
serde = { version = "=1.0.229", features = ["derive"] }
serde_json = "=1.0.151"
reqwest = { version = "=0.13.5", default-features = false, features = ["blocking", "json"] }
tokio = { version = "=1.53.2", features = ["rt-multi-thread"] }
clap = { version = "=4.6.7", features = ["derive"] }
env_logger = "=0.11.11"
log = "=0.4.34"
anyhow = "=1.0.104"
thiserror = "=2.0.21"
aws-config = { version = "=1.12.0", default-features = false }
aws-sdk-elasticache = { version = "=1.124.0", default-features = false }
