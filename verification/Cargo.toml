[package]
name = "orderbot"
version = "0.1.0"
edition = "2021"
publish = false

[dependencies]
anyhow = "=1.0.104"
chrono = "=0.4.45"
config = "=0.14.1"
grammers-client = "=0.7.0"
grammers-tl-types = "=0.7.0"
takecell = "=0.1.1"
serde = { version = "=1.0.229", features = ["derive"] }
teloxide = { version = "=0.12.2", default-features = false, features = ["rustls"] }
tokio = { version = "=1.53.2", features = ["macros", "rt-multi-thread", "time", "fs"] }
tokio-postgres = "=0.7.18"
tracing = "=0.1.44"
