[package]
name = "ore_monitor"
version = "0.1.0"
edition = "2021"
publish = false

[dependencies]
serde_json = "=1.0.151"
zip = { version = "=8.6.0", default-features = false, features = ["deflate"] }
versions = "=8.0.1"
serde = { version = "*", features = ["derive"] }
reqwest = { version = "=0.13.5", default-features = false, features = ["json", "query"] }
tokio = { version = "*", features = ["macros", "rt-multi-thread"] }
tokio-stream = "*"
clap = { version = "*", features = ["derive"] }
anyhow = "*"
async-trait = "*"
chrono = { version = "*", features = ["serde"] }
human_bytes = "*"
