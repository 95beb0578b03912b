[package]
name = "weather_cli"
version = "0.1.0"
edition = "2021"
publish = false

[dependencies]
serde_json = "1"
reqwest = { version = "0.12", default-features = false, features = ["blocking"] }
clap = { version = "4", features = ["derive"] }
dotenv = "0.15"
