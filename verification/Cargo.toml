[package]
name = "local_agent"
version = "0.1.0"
edition = "2021"
publish = false

[dependencies]
markdown = "=1.0.0"
html2md = "=0.2.17"
serde = { version = "=1.0.229", features = ["derive"] }
serde_json = "1"
schemars = "=1.2.2"
clap = { version = "=4.6.7", features = ["derive"] }
tokio = { version = "=1.53.2", features = ["fs", "io-std", "io-util", "macros", "rt-multi-thread"] }
reqwest = { version = "=0.12.28", default-features = false }
ollama-rs = "=0.3.6"
