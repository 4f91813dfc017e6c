[package]
name = "weather_client"
version = "0.1.0"
edition = "2021"
publish = false

[dependencies]
serde = { version = "1", features = ["derive"] }
serde_json = "1"
url = "2"
reqwest = { version = "0.12", default-features = false }
structopt = "0.3"
tokio = { version = "1", features = ["macros", "rt-multi-thread"] }
