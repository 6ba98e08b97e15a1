[package]
name = "sphinx_bot"
version = "0.1.0"
edition = "2021"
publish = false

[dependencies]
serde = { version = "=1.0.229", features = ["derive"] }
serde_json = "=1.0.154"
reqwest = { version = "=0.12.28", default-features = false, features = ["json"] }
toml = "=1.1.8"
http = "=1.5.0"
anyhow = "=1.0.104"
tokio = { version = "=1.54.1", features = ["macros", "rt-multi-thread", "time"] }
tracing = "=0.1.44"
tracing-subscriber = "=0.3.23"
dotenvy = "=0.15.7"
worker = "=0.8.7"
turingram = { version = "=0.1.0", features = ["worker-0_8"] }
