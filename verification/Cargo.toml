[package]
name = "weather"
version = "0.1.0"
edition = "2021"
publish = false

[dependencies]
chrono = "0.4"
clap = { version = "3", features = ["derive"] }
reqwest = { version = "0.11", default-features = false, features = ["blocking", "json"] }
rprompt = "2"
serde = { version = "1", features = ["derive"] }
serde_json = "1"
thiserror = "1"
