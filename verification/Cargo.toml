[package]
name = "ews_scale_sim"
version = "0.1.0"
edition = "2021"
publish = false

[dependencies]
anyhow = "1"
clap = { version = "4", features = ["derive", "env"] }
crossterm = "0.28"
dotenvy = "0.15"
ratatui = "0.28"
rumqttc = { version = "0.24", features = ["websocket"] }
serde = { version = "1", features = ["derive"] }
serde_json = "1"
