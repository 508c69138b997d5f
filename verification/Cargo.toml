[package]
name = "trmnl_display"
version = "0.1.0"
edition = "2021"
publish = false

[dependencies]
anyhow = "*"
clap = { version = "*", features = ["derive"] }
dotenv = "*"
embedded-graphics = "*"
embedded-graphics-simulator = "*"
env_logger = "*"
log = "*"
reqwest = { version = "*", default-features = false }
serde = { version = "*", features = ["derive"] }
serde_json = "*"
tinybmp = "*"
tokio = { version = "*", features = ["macros", "rt-multi-thread", "time", "sync", "signal"] }
