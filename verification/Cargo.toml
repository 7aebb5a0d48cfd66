[package]
name = "dockerbot"
version = "0.1.0"
edition = "2021"
publish = false

[dependencies]
flate2 = "*"
tar = "*"
uuid = { version = "*", features = ["v4"] }
bollard = "*"
tokio = { version = "*", features = ["full"] }
futures-util = "*"
anyhow = "*"
serde = { version = "*", features = ["derive"] }
serde_yaml = "*"
