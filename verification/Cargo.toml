[package]
name = "mikanbako"
version = "1.1.1"
edition = "2021"
publish = false

[dependencies]
anyhow = "=1.0.104"
clap = { version = "=3.0.0-beta.2", default-features = false, features = ["std"] }
console = "=0.16.6"
futures = "=0.3.34"
indicatif = "=0.16.2"
percent-encoding = "=2.3.2"
reqwest = { version = "=0.11.27", features = ["stream"] }
tokio = { version = "=1.54.1", features = ["full"] }
